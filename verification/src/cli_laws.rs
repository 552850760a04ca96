//! What command lines mean: each command word reaches the command of the same
//! name, positional arguments reach their fields in order, and each option's
//! value reaches the field of the same name.

use vstd::prelude::*;
use crate::cli::{
    eq_pos_from, find_long_from, find_short_from, fresh, is_group, is_long, leaf_arity, leaf_options, leaf_phase,
    long_inline, long_name, looks_like_option, missing_required, parse_agrees, parse_spec, scan, short_inline,
    step, sub_of_word, top_leaf, top_of_word, AgentCommands, CheckpointCommands, Cli, CliError, Commands,
    ConfigCommands, GitCommands, KeyCommands, Leaf, ModelCommands, OptSpec, ProviderCommands, Scan, ScanV,
    SkillCommands, ToolCommands, Top,
};

verus! {

/// Whether `t` is read as a word or a positional argument, not as an option.
pub open spec fn is_plain(t: Seq<char>) -> bool {
    !looks_like_option(t)
}

/// At a level of command words, a plain word is the command word.
proof fn lemma_scan_word(args: Seq<Seq<char>>, i: int, opts: Seq<OptSpec>, top: bool, st: ScanV)
    requires
        0 <= i < args.len(),
        is_plain(args[i]),
        !st.stop,
    ensures
        scan(args, i, opts, true, top, 0, st) == Scan::Word(i, st),
{
    assert(step(args, i, opts, true, top, 0, st) == Scan::Word(i, st));
}

/// Plain arguments, no more than a command takes, all become its positional
/// arguments, in order.
proof fn lemma_scan_positionals(args: Seq<Seq<char>>, i: int, opts: Seq<OptSpec>, arity: nat, st: ScanV)
    requires
        0 <= i <= args.len(),
        forall|j: int| i <= j < args.len() ==> is_plain(#[trigger] args[j]),
        !st.stop,
        st.pos.len() + (args.len() - i) <= arity,
    ensures
        scan(args, i, opts, false, false, arity, st) == Scan::Done(
            ScanV { vals: st.vals, pos: st.pos + args.subrange(i, args.len() as int), dd: st.dd, dd_here: st.dd_here, stop: false },
        ),
    decreases args.len() - i,
{
    if i < args.len() {
        assert(is_plain(args[i]));
        let s2 = ScanV { vals: st.vals, pos: st.pos.push(args[i]), dd: st.dd, dd_here: st.dd_here, stop: st.stop };
        assert(step(args, i, opts, false, false, arity, st) == Scan::Next(i + 1, s2));
        lemma_scan_positionals(args, i + 1, opts, arity, s2);
        assert(st.pos + args.subrange(i, args.len() as int) =~= s2.pos + args.subrange(i + 1, args.len() as int));
    } else {
        assert(args.subrange(i, args.len() as int) =~= Seq::<Seq<char>>::empty());
        assert(st.pos + Seq::<Seq<char>>::empty() =~= st.pos);
    }
}

/// A command without required options, given exactly its positional
/// arguments from `i` on, comes to those arguments and no option values.
proof fn lemma_leaf_plain(args: Seq<Seq<char>>, i: int, l: Leaf, dd: Option<Seq<char>>)
    requires
        0 <= i <= args.len(),
        forall|j: int| i <= j < args.len() ==> is_plain(#[trigger] args[j]),
        args.len() - i == leaf_arity(l),
        forall|k: int| 0 <= k < leaf_options(l).len() ==> !(#[trigger] leaf_options(l)[k]).required,
    ensures
        leaf_phase(args, i, l, dd) == Ok::<_, CliError>(
            (l, args.subrange(i, args.len() as int), fresh(dd, leaf_options(l).len()).vals, dd),
        ),
{
    let opts = leaf_options(l);
    let st = fresh(dd, opts.len());
    lemma_scan_positionals(args, i, opts, leaf_arity(l), st);
    assert(Seq::<Seq<char>>::empty() + args.subrange(i, args.len() as int) =~= args.subrange(i, args.len() as int));
    assert(!missing_required(opts, st.vals));
}

/// A group word, a subcommand word and exactly the subcommand's positional
/// arguments come to that subcommand with those arguments.
proof fn lemma_parse_group_plain(args: Seq<Seq<char>>, t: Top, l: Leaf)
    requires
        args.len() >= 3,
        forall|j: int| 1 <= j < args.len() ==> is_plain(#[trigger] args[j]),
        args[1] != "help"@,
        args[2] != "help"@,
        top_of_word(args[1]) == Some(t),
        is_group(t),
        sub_of_word(t, args[2]) == Some(l),
        args.len() - 3 == leaf_arity(l),
        forall|k: int| 0 <= k < leaf_options(l).len() ==> !(#[trigger] leaf_options(l)[k]).required,
    ensures
        parse_spec(args) == Ok::<_, CliError>(
            (l, args.subrange(3, args.len() as int), fresh(None, leaf_options(l).len()).vals, None::<Seq<char>>),
        ),
{
    assert(is_plain(args[1]));
    assert(is_plain(args[2]));
    lemma_scan_word(args, 1, Seq::empty(), true, fresh(None, 0));
    lemma_scan_word(args, 2, Seq::empty(), false, fresh(None, 0));
    lemma_leaf_plain(args, 3, l, None);
}

/// A command word without subcommands and exactly its positional arguments
/// come to that command with those arguments.
proof fn lemma_parse_top_plain(args: Seq<Seq<char>>, t: Top)
    requires
        args.len() >= 2,
        forall|j: int| 1 <= j < args.len() ==> is_plain(#[trigger] args[j]),
        args[1] != "help"@,
        top_of_word(args[1]) == Some(t),
        !is_group(t),
        args.len() - 2 == leaf_arity(top_leaf(t)),
        forall|k: int| 0 <= k < leaf_options(top_leaf(t)).len() ==> !(#[trigger] leaf_options(top_leaf(t))[k]).required,
    ensures
        parse_spec(args) == Ok::<_, CliError>(
            (
                top_leaf(t),
                args.subrange(2, args.len() as int),
                fresh(None, leaf_options(top_leaf(t)).len()).vals,
                None::<Seq<char>>,
            ),
        ),
{
    assert(is_plain(args[1]));
    lemma_scan_word(args, 1, Seq::empty(), true, fresh(None, 0));
    lemma_leaf_plain(args, 2, top_leaf(t), None);
}

/// Where `s` holds no `=` from `i` on, the first `=` from `i` is at its end.
proof fn lemma_eq_pos_none(s: Seq<char>, i: int)
    requires
        0 <= i <= s.len(),
        forall|j: int| i <= j < s.len() ==> #[trigger] s[j] != '=',
    ensures
        eq_pos_from(s, i) == s.len(),
    decreases s.len() - i,
{
    if i < s.len() {
        lemma_eq_pos_none(s, i + 1);
    }
}

/// The state after option `k` got the value `v`.
pub open spec fn with_value(st: ScanV, k: int, v: Seq<char>) -> ScanV {
    ScanV { vals: st.vals.update(k, Some(v)), pos: st.pos, dd: st.dd, dd_here: st.dd_here, stop: st.stop }
}

/// `-c v`, where `c` is the short form of option `k`, gives option `k` the
/// value `v`.
proof fn lemma_step_short_value(
    args: Seq<Seq<char>>,
    i: int,
    opts: Seq<OptSpec>,
    arity: nat,
    st: ScanV,
    c: char,
    k: int,
)
    requires
        0 <= i,
        i + 1 < args.len(),
        args[i] == seq!['-', c],
        c != 'h' && c != 'd' && c != '-',
        find_short_from(opts, c, 0) == Some(k),
        0 <= k < opts.len(),
        opts[k].takes_value,
        !opts[k].path || args[i + 1].len() > 0,
        is_plain(args[i + 1]),
        0 <= k < st.vals.len(),
        st.vals[k] is None,
        !st.stop,
    ensures
        step(args, i, opts, false, false, arity, st) == Scan::Next(i + 2, with_value(st, k, args[i + 1])),
{
    assert(args[i].skip(2) =~= Seq::<char>::empty());
    assert(short_inline(args[i]) is None);
}

/// `--name v`, where `name` is the long form of option `k`, gives option `k`
/// the value `v`.
proof fn lemma_step_long_value(
    args: Seq<Seq<char>>,
    i: int,
    opts: Seq<OptSpec>,
    arity: nat,
    st: ScanV,
    name: Seq<char>,
    k: int,
)
    requires
        0 <= i,
        i + 1 < args.len(),
        args[i] == seq!['-', '-'] + name,
        name.len() > 0,
        forall|j: int| 0 <= j < name.len() ==> #[trigger] name[j] != '=',
        name != "help"@ && name != "data-dir"@,
        find_long_from(opts, name, 0) == Some(k),
        0 <= k < opts.len(),
        opts[k].takes_value,
        !opts[k].path || args[i + 1].len() > 0,
        is_plain(args[i + 1]),
        0 <= k < st.vals.len(),
        st.vals[k] is None,
        !st.stop,
    ensures
        step(args, i, opts, false, false, arity, st) == Scan::Next(i + 2, with_value(st, k, args[i + 1])),
{
    let t = args[i];
    assert(t.skip(2) =~= name);
    lemma_eq_pos_none(name, 0);
    assert(name.take(name.len() as int) =~= name);
    assert(long_name(t) == name);
    assert(long_inline(t) is None);
    assert(is_long(t));
}

/// `--name`, where `name` is the long form of flag `k`, sets flag `k`.
proof fn lemma_step_long_flag(
    args: Seq<Seq<char>>,
    i: int,
    opts: Seq<OptSpec>,
    arity: nat,
    st: ScanV,
    name: Seq<char>,
    k: int,
)
    requires
        0 <= i < args.len(),
        args[i] == seq!['-', '-'] + name,
        name.len() > 0,
        forall|j: int| 0 <= j < name.len() ==> #[trigger] name[j] != '=',
        name != "help"@ && name != "data-dir"@,
        find_long_from(opts, name, 0) == Some(k),
        0 <= k < opts.len(),
        !opts[k].takes_value,
        0 <= k < st.vals.len(),
        st.vals[k] is None,
        !st.stop,
    ensures
        step(args, i, opts, false, false, arity, st) == Scan::Next(i + 1, with_value(st, k, Seq::empty())),
{
    let t = args[i];
    assert(t.skip(2) =~= name);
    lemma_eq_pos_none(name, 0);
    assert(name.take(name.len() as int) =~= name);
    assert(long_name(t) == name);
    assert(long_inline(t) is None);
    assert(is_long(t));
}

/// The words of the commands, as written on the command line.
proof fn lemma_words()
    ensures
        "help"@ != "status"@ && "help"@ != "serve"@ && "help"@ != "apply"@ && "help"@ != "generate-flake"@,
        "help"@ != "agent"@ && "help"@ != "model"@,
        "help"@ != "enable"@ && "help"@ != "disable"@ && "help"@ != "get"@ && "help"@ != "delete"@,
        "help"@ != "create"@ && "help"@ != "checkpoint"@ && "help"@ != "list-checkpoints"@ && "help"@
            != "delete-checkpoint"@,
        is_plain("status"@) && is_plain("serve"@) && is_plain("apply"@) && is_plain("generate-flake"@),
        is_plain("agent"@) && is_plain("model"@) && is_plain("enable"@) && is_plain("disable"@),
        is_plain("get"@) && is_plain("delete"@) && is_plain("create"@) && is_plain("checkpoint"@),
        is_plain("list-checkpoints"@) && is_plain("delete-checkpoint"@),
{
    reveal_strlit("help");
    assert("help"@.len() == 4 && "help"@[0] == 'h' && "help"@[1] == 'e');
    reveal_strlit("status");
    assert("status"@.len() == 6 && "status"@[0] == 's' && "status"@[1] == 't');
    reveal_strlit("serve");
    assert("serve"@.len() == 5 && "serve"@[0] == 's' && "serve"@[1] == 'e');
    reveal_strlit("apply");
    assert("apply"@.len() == 5 && "apply"@[0] == 'a' && "apply"@[1] == 'p');
    reveal_strlit("generate-flake");
    assert("generate-flake"@.len() == 14 && "generate-flake"@[0] == 'g' && "generate-flake"@[1] == 'e');
    reveal_strlit("agent");
    assert("agent"@.len() == 5 && "agent"@[0] == 'a' && "agent"@[1] == 'g');
    reveal_strlit("checkpoint");
    assert("checkpoint"@.len() == 10 && "checkpoint"@[0] == 'c' && "checkpoint"@[1] == 'h');
    reveal_strlit("git");
    assert("git"@.len() == 3 && "git"@[0] == 'g' && "git"@[1] == 'i');
    reveal_strlit("config");
    assert("config"@.len() == 6 && "config"@[0] == 'c' && "config"@[1] == 'o');
    reveal_strlit("provider");
    assert("provider"@.len() == 8 && "provider"@[0] == 'p' && "provider"@[1] == 'r');
    reveal_strlit("model");
    assert("model"@.len() == 5 && "model"@[0] == 'm' && "model"@[1] == 'o');
    reveal_strlit("skill");
    assert("skill"@.len() == 5 && "skill"@[0] == 's' && "skill"@[1] == 'k');
    reveal_strlit("tool");
    assert("tool"@.len() == 4 && "tool"@[0] == 't' && "tool"@[1] == 'o');
    reveal_strlit("key");
    assert("key"@.len() == 3 && "key"@[0] == 'k' && "key"@[1] == 'e');
    reveal_strlit("list");
    assert("list"@.len() == 4 && "list"@[0] == 'l' && "list"@[1] == 'i');
    reveal_strlit("create");
    assert("create"@.len() == 6 && "create"@[0] == 'c' && "create"@[1] == 'r');
    reveal_strlit("get");
    assert("get"@.len() == 3 && "get"@[0] == 'g' && "get"@[1] == 'e');
    reveal_strlit("delete");
    assert("delete"@.len() == 6 && "delete"@[0] == 'd' && "delete"@[1] == 'e');
    reveal_strlit("enable");
    assert("enable"@.len() == 6 && "enable"@[0] == 'e' && "enable"@[1] == 'n');
    reveal_strlit("disable");
    assert("disable"@.len() == 7 && "disable"@[0] == 'd' && "disable"@[1] == 'i');
    reveal_strlit("rollback");
    assert("rollback"@.len() == 8 && "rollback"@[0] == 'r' && "rollback"@[1] == 'o');
    reveal_strlit("list-checkpoints");
    assert("list-checkpoints"@.len() == 16 && "list-checkpoints"@[0] == 'l' && "list-checkpoints"@[1] == 'i');
    reveal_strlit("delete-checkpoint");
    assert("delete-checkpoint"@.len() == 17 && "delete-checkpoint"@[0] == 'd' && "delete-checkpoint"@[1] == 'e');
}

/// The top-level command words and the agent subcommand words name what
/// they say.
proof fn lemma_word_meanings()
    ensures
        top_of_word("status"@) == Some(Top::Status),
        top_of_word("serve"@) == Some(Top::Serve),
        top_of_word("apply"@) == Some(Top::Apply),
        top_of_word("generate-flake"@) == Some(Top::GenerateFlake),
        top_of_word("agent"@) == Some(Top::Agent),
        top_of_word("model"@) == Some(Top::Model),
        sub_of_word(Top::Agent, "create"@) == Some(Leaf::AgentCreate),
        sub_of_word(Top::Agent, "get"@) == Some(Leaf::AgentGet),
        sub_of_word(Top::Agent, "delete"@) == Some(Leaf::AgentDelete),
        sub_of_word(Top::Agent, "enable"@) == Some(Leaf::AgentEnable),
        sub_of_word(Top::Agent, "disable"@) == Some(Leaf::AgentDisable),
        sub_of_word(Top::Agent, "checkpoint"@) == Some(Leaf::AgentCheckpoint),
        sub_of_word(Top::Agent, "list-checkpoints"@) == Some(Leaf::AgentListCheckpoints),
        sub_of_word(Top::Agent, "delete-checkpoint"@) == Some(Leaf::AgentDeleteCheckpoint),
        sub_of_word(Top::Model, "create"@) == Some(Leaf::ModelCreate),
{
    reveal_strlit("help");
    assert("help"@.len() == 4 && "help"@[0] == 'h' && "help"@[1] == 'e');
    reveal_strlit("status");
    assert("status"@.len() == 6 && "status"@[0] == 's' && "status"@[1] == 't');
    reveal_strlit("serve");
    assert("serve"@.len() == 5 && "serve"@[0] == 's' && "serve"@[1] == 'e');
    reveal_strlit("apply");
    assert("apply"@.len() == 5 && "apply"@[0] == 'a' && "apply"@[1] == 'p');
    reveal_strlit("generate-flake");
    assert("generate-flake"@.len() == 14 && "generate-flake"@[0] == 'g' && "generate-flake"@[1] == 'e');
    reveal_strlit("agent");
    assert("agent"@.len() == 5 && "agent"@[0] == 'a' && "agent"@[1] == 'g');
    reveal_strlit("checkpoint");
    assert("checkpoint"@.len() == 10 && "checkpoint"@[0] == 'c' && "checkpoint"@[1] == 'h');
    reveal_strlit("git");
    assert("git"@.len() == 3 && "git"@[0] == 'g' && "git"@[1] == 'i');
    reveal_strlit("config");
    assert("config"@.len() == 6 && "config"@[0] == 'c' && "config"@[1] == 'o');
    reveal_strlit("provider");
    assert("provider"@.len() == 8 && "provider"@[0] == 'p' && "provider"@[1] == 'r');
    reveal_strlit("model");
    assert("model"@.len() == 5 && "model"@[0] == 'm' && "model"@[1] == 'o');
    reveal_strlit("skill");
    assert("skill"@.len() == 5 && "skill"@[0] == 's' && "skill"@[1] == 'k');
    reveal_strlit("tool");
    assert("tool"@.len() == 4 && "tool"@[0] == 't' && "tool"@[1] == 'o');
    reveal_strlit("key");
    assert("key"@.len() == 3 && "key"@[0] == 'k' && "key"@[1] == 'e');
    reveal_strlit("list");
    assert("list"@.len() == 4 && "list"@[0] == 'l' && "list"@[1] == 'i');
    reveal_strlit("create");
    assert("create"@.len() == 6 && "create"@[0] == 'c' && "create"@[1] == 'r');
    reveal_strlit("get");
    assert("get"@.len() == 3 && "get"@[0] == 'g' && "get"@[1] == 'e');
    reveal_strlit("delete");
    assert("delete"@.len() == 6 && "delete"@[0] == 'd' && "delete"@[1] == 'e');
    reveal_strlit("enable");
    assert("enable"@.len() == 6 && "enable"@[0] == 'e' && "enable"@[1] == 'n');
    reveal_strlit("disable");
    assert("disable"@.len() == 7 && "disable"@[0] == 'd' && "disable"@[1] == 'i');
    reveal_strlit("rollback");
    assert("rollback"@.len() == 8 && "rollback"@[0] == 'r' && "rollback"@[1] == 'o');
    reveal_strlit("list-checkpoints");
    assert("list-checkpoints"@.len() == 16 && "list-checkpoints"@[0] == 'l' && "list-checkpoints"@[1] == 'i');
    reveal_strlit("delete-checkpoint");
    assert("delete-checkpoint"@.len() == 17 && "delete-checkpoint"@[0] == 'd' && "delete-checkpoint"@[1] == 'e');
}

/// `status`, `serve`, `apply` and `generate-flake` on their own run the
/// command of the same name, with no options and no data directory.
pub proof fn law_top_words_name_their_commands(prog: Seq<char>, w: Seq<char>, r: Result<Cli, CliError>)
    requires
        parse_agrees(seq![prog, w], r),
    ensures
        w == "status"@ ==> (r matches Ok(c) && c.command is Status && c.data_dir is None),
        w == "serve"@ ==> (r matches Ok(c) && c.command is Serve && c.data_dir is None),
        w == "apply"@ ==> (r matches Ok(c) && c.command matches Commands::Apply { template } && template is None
            && c.data_dir is None),
        w == "generate-flake"@ ==> (r matches Ok(c) && c.command matches Commands::GenerateFlake {
            output,
            template,
            force,
        } && output is None && template is None && !force && c.data_dir is None),
{
    lemma_words();
    lemma_word_meanings();
    let args = seq![prog, w];
    if w == "status"@ {
        lemma_parse_top_plain(args, Top::Status);
    } else if w == "serve"@ {
        lemma_parse_top_plain(args, Top::Serve);
    } else if w == "apply"@ {
        lemma_parse_top_plain(args, Top::Apply);
        let vals = fresh(None, 1).vals;
        assert(vals[0] is None);
        if let Ok(c) = r {
            if let Commands::Apply { template } = c.command {
                assert(seq![crate::cli::opt_string_view(template)][0] == vals[0]);
            }
        }
    } else if w == "generate-flake"@ {
        lemma_parse_top_plain(args, Top::GenerateFlake);
    }
}

} // verus!

verus! {

/// `model create <name>` with `-p`/`--provider` and `-m`/`--model-name`
/// creates the model `name` of that provider under that model name: the
/// value given to each option reaches the field of the same name.
pub proof fn law_model_create_options(
    prog: Seq<char>,
    n: Seq<char>,
    p: Seq<char>,
    m: Seq<char>,
    long: bool,
    r: Result<Cli, CliError>,
)
    requires
        is_plain(n) && is_plain(p) && is_plain(m),
        parse_agrees(
            seq![
                prog,
                "model"@,
                "create"@,
                n,
                if long { "--provider"@ } else { "-p"@ },
                p,
                if long { "--model-name"@ } else { "-m"@ },
                m
            ],
            r,
        ),
    ensures
        r matches Ok(c) && c.command matches Commands::Model {
            command: ModelCommands::Create { name, provider, model_name },
        } && name@ == n && provider@ == p && model_name@ == m && c.data_dir is None,
{
    lemma_words();
    lemma_word_meanings();
    reveal_strlit("-p");
    reveal_strlit("-m");
    reveal_strlit("--provider");
    reveal_strlit("--model-name");
    reveal_strlit("provider");
    reveal_strlit("model-name");
    reveal_strlit("data-dir");
    reveal_strlit("help");
    assert("help"@.len() == 4);
    assert("provider"@.len() == 8 && "model-name"@.len() == 10 && "data-dir"@.len() == 8);
    assert("provider"@[0] == 'p' && "data-dir"@[0] == 'd');
    let o1 = if long { "--provider"@ } else { "-p"@ };
    let o2 = if long { "--model-name"@ } else { "-m"@ };
    let args = seq![prog, "model"@, "create"@, n, o1, p, o2, m];
    let l = Leaf::ModelCreate;
    let opts = leaf_options(l);
    assert(opts[0].long@ == "provider"@ && opts[1].long@ == "model-name"@);
    assert(find_short_from(opts, 'p', 0) == Some(0int));
    assert(find_short_from(opts, 'm', 1) == Some(1int));
    assert(find_short_from(opts, 'm', 0) == Some(1int));
    assert(find_long_from(opts, "provider"@, 0) == Some(0int));
    assert(find_long_from(opts, "model-name"@, 1) == Some(1int));
    assert(find_long_from(opts, "model-name"@, 0) == Some(1int));
    let st0 = fresh(None, 2);
    let st1 = ScanV { vals: st0.vals, pos: st0.pos.push(n), dd: st0.dd, dd_here: st0.dd_here, stop: st0.stop };
    assert(step(args, 3, opts, false, false, 1, st0) == Scan::Next(4, st1));
    let st2 = with_value(st1, 0, p);
    let st3 = with_value(st2, 1, m);
    if long {
        assert("--provider"@ =~= seq!['-', '-'] + "provider"@);
        assert("--model-name"@ =~= seq!['-', '-'] + "model-name"@);
        lemma_step_long_value(args, 4, opts, 1, st1, "provider"@, 0);
        lemma_step_long_value(args, 6, opts, 1, st2, "model-name"@, 1);
    } else {
        assert("-p"@ =~= seq!['-', 'p']);
        assert("-m"@ =~= seq!['-', 'm']);
        lemma_step_short_value(args, 4, opts, 1, st1, 'p', 0);
        lemma_step_short_value(args, 6, opts, 1, st2, 'm', 1);
    }
    assert(scan(args, 8, opts, false, false, 1, st3) == Scan::Done(st3));
    assert(scan(args, 6, opts, false, false, 1, st2) == Scan::Done(st3));
    assert(scan(args, 4, opts, false, false, 1, st1) == Scan::Done(st3));
    assert(scan(args, 3, opts, false, false, 1, st0) == Scan::Done(st3));
    assert(st3.vals =~= seq![Some(p), Some(m)]);
    assert(st3.pos =~= seq![n]);
    assert(!missing_required(opts, st3.vals));
    assert(leaf_phase(args, 3, l, None) == Ok::<_, CliError>((l, seq![n], seq![Some(p), Some(m)], None::<Seq<char>>)));
    assert(is_plain(args[1]) && is_plain(args[2]));
    lemma_scan_word(args, 1, Seq::empty(), true, fresh(None, 0));
    lemma_scan_word(args, 2, Seq::empty(), false, fresh(None, 0));
    assert(parse_spec(args) == Ok::<_, CliError>((l, seq![n], seq![Some(p), Some(m)], None::<Seq<char>>)));
    assert(r is Ok && r->Ok_0.command.shape().0 == l);
    assert(r->Ok_0.command is Model);
    assert(r->Ok_0.command->Model_command is Create);
    assert(r->Ok_0.command.shape().1[0] == n);
    assert(r->Ok_0.command.shape().2[0] == Some(p));
    assert(r->Ok_0.command.shape().2[1] == Some(m));
}

} // verus!

verus! {

/// The word `agent` and the words of its commands name what they say.
proof fn lemma_words_agent()
    ensures
        top_of_word("agent"@) == Some(Top::Agent),
        is_plain("agent"@) && "agent"@ != "help"@,
        sub_of_word(Top::Agent, "list"@) == Some(Leaf::AgentList) && is_plain("list"@) && "list"@ != "help"@,
        sub_of_word(Top::Agent, "create"@) == Some(Leaf::AgentCreate) && is_plain("create"@) && "create"@ != "help"@,
        sub_of_word(Top::Agent, "get"@) == Some(Leaf::AgentGet) && is_plain("get"@) && "get"@ != "help"@,
        sub_of_word(Top::Agent, "delete"@) == Some(Leaf::AgentDelete) && is_plain("delete"@) && "delete"@ != "help"@,
        sub_of_word(Top::Agent, "enable"@) == Some(Leaf::AgentEnable) && is_plain("enable"@) && "enable"@ != "help"@,
        sub_of_word(Top::Agent, "disable"@) == Some(Leaf::AgentDisable) && is_plain("disable"@) && "disable"@ != "help"@,
        sub_of_word(Top::Agent, "checkpoint"@) == Some(Leaf::AgentCheckpoint) && is_plain("checkpoint"@) && "checkpoint"@ != "help"@,
        sub_of_word(Top::Agent, "rollback"@) == Some(Leaf::AgentRollback) && is_plain("rollback"@) && "rollback"@ != "help"@,
        sub_of_word(Top::Agent, "list-checkpoints"@) == Some(Leaf::AgentListCheckpoints) && is_plain("list-checkpoints"@) && "list-checkpoints"@ != "help"@,
        sub_of_word(Top::Agent, "delete-checkpoint"@) == Some(Leaf::AgentDeleteCheckpoint) && is_plain("delete-checkpoint"@) && "delete-checkpoint"@ != "help"@,
{
    reveal_strlit("agent");
    assert("agent"@.len() == 5 && "agent"@[0] == 'a' && "agent"@[1] == 'g' && "agent"@[2] == 'e' && "agent"@[3] == 'n' && "agent"@[4] == 't');
    reveal_strlit("apply");
    assert("apply"@.len() == 5 && "apply"@[0] == 'a' && "apply"@[1] == 'p' && "apply"@[2] == 'p' && "apply"@[3] == 'l' && "apply"@[4] == 'y');
    reveal_strlit("checkpoint");
    assert("checkpoint"@.len() == 10 && "checkpoint"@[0] == 'c' && "checkpoint"@[1] == 'h' && "checkpoint"@[2] == 'e' && "checkpoint"@[3] == 'c' && "checkpoint"@[4] == 'k' && "checkpoint"@[5] == 'p' && "checkpoint"@[6] == 'o' && "checkpoint"@[7] == 'i' && "checkpoint"@[8] == 'n' && "checkpoint"@[9] == 't');
    reveal_strlit("config");
    assert("config"@.len() == 6 && "config"@[0] == 'c' && "config"@[1] == 'o' && "config"@[2] == 'n' && "config"@[3] == 'f' && "config"@[4] == 'i' && "config"@[5] == 'g');
    reveal_strlit("create");
    assert("create"@.len() == 6 && "create"@[0] == 'c' && "create"@[1] == 'r' && "create"@[2] == 'e' && "create"@[3] == 'a' && "create"@[4] == 't' && "create"@[5] == 'e');
    reveal_strlit("delete");
    assert("delete"@.len() == 6 && "delete"@[0] == 'd' && "delete"@[1] == 'e' && "delete"@[2] == 'l' && "delete"@[3] == 'e' && "delete"@[4] == 't' && "delete"@[5] == 'e');
    reveal_strlit("delete-checkpoint");
    assert("delete-checkpoint"@.len() == 17 && "delete-checkpoint"@[0] == 'd' && "delete-checkpoint"@[1] == 'e' && "delete-checkpoint"@[2] == 'l' && "delete-checkpoint"@[3] == 'e' && "delete-checkpoint"@[4] == 't' && "delete-checkpoint"@[5] == 'e' && "delete-checkpoint"@[6] == '-' && "delete-checkpoint"@[7] == 'c' && "delete-checkpoint"@[8] == 'h' && "delete-checkpoint"@[9] == 'e' && "delete-checkpoint"@[10] == 'c' && "delete-checkpoint"@[11] == 'k' && "delete-checkpoint"@[12] == 'p' && "delete-checkpoint"@[13] == 'o' && "delete-checkpoint"@[14] == 'i' && "delete-checkpoint"@[15] == 'n' && "delete-checkpoint"@[16] == 't');
    reveal_strlit("disable");
    assert("disable"@.len() == 7 && "disable"@[0] == 'd' && "disable"@[1] == 'i' && "disable"@[2] == 's' && "disable"@[3] == 'a' && "disable"@[4] == 'b' && "disable"@[5] == 'l' && "disable"@[6] == 'e');
    reveal_strlit("enable");
    assert("enable"@.len() == 6 && "enable"@[0] == 'e' && "enable"@[1] == 'n' && "enable"@[2] == 'a' && "enable"@[3] == 'b' && "enable"@[4] == 'l' && "enable"@[5] == 'e');
    reveal_strlit("generate-flake");
    assert("generate-flake"@.len() == 14 && "generate-flake"@[0] == 'g' && "generate-flake"@[1] == 'e' && "generate-flake"@[2] == 'n' && "generate-flake"@[3] == 'e' && "generate-flake"@[4] == 'r' && "generate-flake"@[5] == 'a' && "generate-flake"@[6] == 't' && "generate-flake"@[7] == 'e' && "generate-flake"@[8] == '-' && "generate-flake"@[9] == 'f' && "generate-flake"@[10] == 'l' && "generate-flake"@[11] == 'a' && "generate-flake"@[12] == 'k' && "generate-flake"@[13] == 'e');
    reveal_strlit("get");
    assert("get"@.len() == 3 && "get"@[0] == 'g' && "get"@[1] == 'e' && "get"@[2] == 't');
    reveal_strlit("git");
    assert("git"@.len() == 3 && "git"@[0] == 'g' && "git"@[1] == 'i' && "git"@[2] == 't');
    reveal_strlit("help");
    assert("help"@.len() == 4 && "help"@[0] == 'h' && "help"@[1] == 'e' && "help"@[2] == 'l' && "help"@[3] == 'p');
    reveal_strlit("key");
    assert("key"@.len() == 3 && "key"@[0] == 'k' && "key"@[1] == 'e' && "key"@[2] == 'y');
    reveal_strlit("list");
    assert("list"@.len() == 4 && "list"@[0] == 'l' && "list"@[1] == 'i' && "list"@[2] == 's' && "list"@[3] == 't');
    reveal_strlit("list-checkpoints");
    assert("list-checkpoints"@.len() == 16 && "list-checkpoints"@[0] == 'l' && "list-checkpoints"@[1] == 'i' && "list-checkpoints"@[2] == 's' && "list-checkpoints"@[3] == 't' && "list-checkpoints"@[4] == '-' && "list-checkpoints"@[5] == 'c' && "list-checkpoints"@[6] == 'h' && "list-checkpoints"@[7] == 'e' && "list-checkpoints"@[8] == 'c' && "list-checkpoints"@[9] == 'k' && "list-checkpoints"@[10] == 'p' && "list-checkpoints"@[11] == 'o' && "list-checkpoints"@[12] == 'i' && "list-checkpoints"@[13] == 'n' && "list-checkpoints"@[14] == 't' && "list-checkpoints"@[15] == 's');
    reveal_strlit("model");
    assert("model"@.len() == 5 && "model"@[0] == 'm' && "model"@[1] == 'o' && "model"@[2] == 'd' && "model"@[3] == 'e' && "model"@[4] == 'l');
    reveal_strlit("provider");
    assert("provider"@.len() == 8 && "provider"@[0] == 'p' && "provider"@[1] == 'r' && "provider"@[2] == 'o' && "provider"@[3] == 'v' && "provider"@[4] == 'i' && "provider"@[5] == 'd' && "provider"@[6] == 'e' && "provider"@[7] == 'r');
    reveal_strlit("rollback");
    assert("rollback"@.len() == 8 && "rollback"@[0] == 'r' && "rollback"@[1] == 'o' && "rollback"@[2] == 'l' && "rollback"@[3] == 'l' && "rollback"@[4] == 'b' && "rollback"@[5] == 'a' && "rollback"@[6] == 'c' && "rollback"@[7] == 'k');
    reveal_strlit("serve");
    assert("serve"@.len() == 5 && "serve"@[0] == 's' && "serve"@[1] == 'e' && "serve"@[2] == 'r' && "serve"@[3] == 'v' && "serve"@[4] == 'e');
    reveal_strlit("skill");
    assert("skill"@.len() == 5 && "skill"@[0] == 's' && "skill"@[1] == 'k' && "skill"@[2] == 'i' && "skill"@[3] == 'l' && "skill"@[4] == 'l');
    reveal_strlit("status");
    assert("status"@.len() == 6 && "status"@[0] == 's' && "status"@[1] == 't' && "status"@[2] == 'a' && "status"@[3] == 't' && "status"@[4] == 'u' && "status"@[5] == 's');
    reveal_strlit("tool");
    assert("tool"@.len() == 4 && "tool"@[0] == 't' && "tool"@[1] == 'o' && "tool"@[2] == 'o' && "tool"@[3] == 'l');
}

/// `agent <word> <arguments>` runs the agent command of the same name, its
/// positional arguments reaching its fields in order and its optional
/// options left unset.
pub proof fn law_agent_words_name_their_commands(prog: Seq<char>, w: Seq<char>, a: Seq<Seq<char>>, r: Result<Cli, CliError>)
    requires
        forall|j: int| 0 <= j < a.len() ==> is_plain(#[trigger] a[j]),
        parse_agrees(seq![prog, "agent"@, w] + a, r),
    ensures
        (w == "list"@ && a.len() == 0) ==> (r matches Ok(c) && c.command matches Commands::Agent { command: AgentCommands::List } && c.data_dir is None),
        (w == "create"@ && a.len() == 1) ==> (r matches Ok(c) && c.command matches Commands::Agent { command: AgentCommands::Create { name, forgejo_username } } && name@ == a[0] && forgejo_username is None && c.data_dir is None),
        (w == "get"@ && a.len() == 1) ==> (r matches Ok(c) && c.command matches Commands::Agent { command: AgentCommands::Get { name } } && name@ == a[0] && c.data_dir is None),
        (w == "delete"@ && a.len() == 1) ==> (r matches Ok(c) && c.command matches Commands::Agent { command: AgentCommands::Delete { name } } && name@ == a[0] && c.data_dir is None),
        (w == "enable"@ && a.len() == 1) ==> (r matches Ok(c) && c.command matches Commands::Agent { command: AgentCommands::Enable { name } } && name@ == a[0] && c.data_dir is None),
        (w == "disable"@ && a.len() == 1) ==> (r matches Ok(c) && c.command matches Commands::Agent { command: AgentCommands::Disable { name } } && name@ == a[0] && c.data_dir is None),
        (w == "checkpoint"@ && a.len() == 1) ==> (r matches Ok(c) && c.command matches Commands::Agent { command: AgentCommands::Checkpoint { name, desc } } && name@ == a[0] && desc is None && c.data_dir is None),
        (w == "rollback"@ && a.len() == 2) ==> (r matches Ok(c) && c.command matches Commands::Agent { command: AgentCommands::Rollback { name, checkpoint_id } } && name@ == a[0] && checkpoint_id@ == a[1] && c.data_dir is None),
        (w == "list-checkpoints"@ && a.len() == 1) ==> (r matches Ok(c) && c.command matches Commands::Agent { command: AgentCommands::ListCheckpoints { name } } && name@ == a[0] && c.data_dir is None),
        (w == "delete-checkpoint"@ && a.len() == 1) ==> (r matches Ok(c) && c.command matches Commands::Agent { command: AgentCommands::DeleteCheckpoint { checkpoint_id } } && checkpoint_id@ == a[0] && c.data_dir is None),
{
    lemma_words_agent();
    let args = seq![prog, "agent"@, w] + a;
    assert(args.subrange(3, args.len() as int) =~= a);
    assert(args[1] == "agent"@ && args[2] == w);
    assert forall|j: int| 3 <= j < args.len() implies #[trigger] args[j] == a[j - 3] by {}
    if w == "list"@ && a.len() == 0 {
        assert forall|j: int| 1 <= j < args.len() implies is_plain(#[trigger] args[j]) by { if j >= 3 { assert(args[j] == a[j - 3]); } }
        lemma_parse_group_plain(args, Top::Agent, Leaf::AgentList);
        assert(r is Ok && r->Ok_0.command.shape().0 == Leaf::AgentList);
        assert(r->Ok_0.command is Agent);
        assert(r->Ok_0.command->Agent_command is List);
    } else if w == "create"@ && a.len() == 1 {
        assert forall|j: int| 1 <= j < args.len() implies is_plain(#[trigger] args[j]) by { if j >= 3 { assert(args[j] == a[j - 3]); } }
        lemma_parse_group_plain(args, Top::Agent, Leaf::AgentCreate);
        assert(r is Ok && r->Ok_0.command.shape().0 == Leaf::AgentCreate);
        assert(r->Ok_0.command is Agent);
        assert(r->Ok_0.command->Agent_command is Create);
        assert(r->Ok_0.command.shape().1[0] == a[0]);
        assert(fresh(None, 1).vals[0] is None);
        assert(r->Ok_0.command.shape().2[0] is None);
    } else if w == "get"@ && a.len() == 1 {
        assert forall|j: int| 1 <= j < args.len() implies is_plain(#[trigger] args[j]) by { if j >= 3 { assert(args[j] == a[j - 3]); } }
        lemma_parse_group_plain(args, Top::Agent, Leaf::AgentGet);
        assert(r is Ok && r->Ok_0.command.shape().0 == Leaf::AgentGet);
        assert(r->Ok_0.command is Agent);
        assert(r->Ok_0.command->Agent_command is Get);
        assert(r->Ok_0.command.shape().1[0] == a[0]);
    } else if w == "delete"@ && a.len() == 1 {
        assert forall|j: int| 1 <= j < args.len() implies is_plain(#[trigger] args[j]) by { if j >= 3 { assert(args[j] == a[j - 3]); } }
        lemma_parse_group_plain(args, Top::Agent, Leaf::AgentDelete);
        assert(r is Ok && r->Ok_0.command.shape().0 == Leaf::AgentDelete);
        assert(r->Ok_0.command is Agent);
        assert(r->Ok_0.command->Agent_command is Delete);
        assert(r->Ok_0.command.shape().1[0] == a[0]);
    } else if w == "enable"@ && a.len() == 1 {
        assert forall|j: int| 1 <= j < args.len() implies is_plain(#[trigger] args[j]) by { if j >= 3 { assert(args[j] == a[j - 3]); } }
        lemma_parse_group_plain(args, Top::Agent, Leaf::AgentEnable);
        assert(r is Ok && r->Ok_0.command.shape().0 == Leaf::AgentEnable);
        assert(r->Ok_0.command is Agent);
        assert(r->Ok_0.command->Agent_command is Enable);
        assert(r->Ok_0.command.shape().1[0] == a[0]);
    } else if w == "disable"@ && a.len() == 1 {
        assert forall|j: int| 1 <= j < args.len() implies is_plain(#[trigger] args[j]) by { if j >= 3 { assert(args[j] == a[j - 3]); } }
        lemma_parse_group_plain(args, Top::Agent, Leaf::AgentDisable);
        assert(r is Ok && r->Ok_0.command.shape().0 == Leaf::AgentDisable);
        assert(r->Ok_0.command is Agent);
        assert(r->Ok_0.command->Agent_command is Disable);
        assert(r->Ok_0.command.shape().1[0] == a[0]);
    } else if w == "checkpoint"@ && a.len() == 1 {
        assert forall|j: int| 1 <= j < args.len() implies is_plain(#[trigger] args[j]) by { if j >= 3 { assert(args[j] == a[j - 3]); } }
        lemma_parse_group_plain(args, Top::Agent, Leaf::AgentCheckpoint);
        assert(r is Ok && r->Ok_0.command.shape().0 == Leaf::AgentCheckpoint);
        assert(r->Ok_0.command is Agent);
        assert(r->Ok_0.command->Agent_command is Checkpoint);
        assert(r->Ok_0.command.shape().1[0] == a[0]);
        assert(fresh(None, 1).vals[0] is None);
        assert(r->Ok_0.command.shape().2[0] is None);
    } else if w == "rollback"@ && a.len() == 2 {
        assert forall|j: int| 1 <= j < args.len() implies is_plain(#[trigger] args[j]) by { if j >= 3 { assert(args[j] == a[j - 3]); } }
        lemma_parse_group_plain(args, Top::Agent, Leaf::AgentRollback);
        assert(r is Ok && r->Ok_0.command.shape().0 == Leaf::AgentRollback);
        assert(r->Ok_0.command is Agent);
        assert(r->Ok_0.command->Agent_command is Rollback);
        assert(r->Ok_0.command.shape().1[0] == a[0]);
        assert(r->Ok_0.command.shape().1[1] == a[1]);
    } else if w == "list-checkpoints"@ && a.len() == 1 {
        assert forall|j: int| 1 <= j < args.len() implies is_plain(#[trigger] args[j]) by { if j >= 3 { assert(args[j] == a[j - 3]); } }
        lemma_parse_group_plain(args, Top::Agent, Leaf::AgentListCheckpoints);
        assert(r is Ok && r->Ok_0.command.shape().0 == Leaf::AgentListCheckpoints);
        assert(r->Ok_0.command is Agent);
        assert(r->Ok_0.command->Agent_command is ListCheckpoints);
        assert(r->Ok_0.command.shape().1[0] == a[0]);
    } else if w == "delete-checkpoint"@ && a.len() == 1 {
        assert forall|j: int| 1 <= j < args.len() implies is_plain(#[trigger] args[j]) by { if j >= 3 { assert(args[j] == a[j - 3]); } }
        lemma_parse_group_plain(args, Top::Agent, Leaf::AgentDeleteCheckpoint);
        assert(r is Ok && r->Ok_0.command.shape().0 == Leaf::AgentDeleteCheckpoint);
        assert(r->Ok_0.command is Agent);
        assert(r->Ok_0.command->Agent_command is DeleteCheckpoint);
        assert(r->Ok_0.command.shape().1[0] == a[0]);
    }
}

/// The word `checkpoint` and the words of its commands name what they say.
proof fn lemma_words_checkpoint()
    ensures
        top_of_word("checkpoint"@) == Some(Top::Checkpoint),
        is_plain("checkpoint"@) && "checkpoint"@ != "help"@,
        sub_of_word(Top::Checkpoint, "clone"@) == Some(Leaf::CheckpointClone) && is_plain("clone"@) && "clone"@ != "help"@,
        sub_of_word(Top::Checkpoint, "list"@) == Some(Leaf::CheckpointList) && is_plain("list"@) && "list"@ != "help"@,
{
    reveal_strlit("agent");
    assert("agent"@.len() == 5 && "agent"@[0] == 'a' && "agent"@[1] == 'g' && "agent"@[2] == 'e' && "agent"@[3] == 'n' && "agent"@[4] == 't');
    reveal_strlit("apply");
    assert("apply"@.len() == 5 && "apply"@[0] == 'a' && "apply"@[1] == 'p' && "apply"@[2] == 'p' && "apply"@[3] == 'l' && "apply"@[4] == 'y');
    reveal_strlit("checkpoint");
    assert("checkpoint"@.len() == 10 && "checkpoint"@[0] == 'c' && "checkpoint"@[1] == 'h' && "checkpoint"@[2] == 'e' && "checkpoint"@[3] == 'c' && "checkpoint"@[4] == 'k' && "checkpoint"@[5] == 'p' && "checkpoint"@[6] == 'o' && "checkpoint"@[7] == 'i' && "checkpoint"@[8] == 'n' && "checkpoint"@[9] == 't');
    reveal_strlit("clone");
    assert("clone"@.len() == 5 && "clone"@[0] == 'c' && "clone"@[1] == 'l' && "clone"@[2] == 'o' && "clone"@[3] == 'n' && "clone"@[4] == 'e');
    reveal_strlit("config");
    assert("config"@.len() == 6 && "config"@[0] == 'c' && "config"@[1] == 'o' && "config"@[2] == 'n' && "config"@[3] == 'f' && "config"@[4] == 'i' && "config"@[5] == 'g');
    reveal_strlit("generate-flake");
    assert("generate-flake"@.len() == 14 && "generate-flake"@[0] == 'g' && "generate-flake"@[1] == 'e' && "generate-flake"@[2] == 'n' && "generate-flake"@[3] == 'e' && "generate-flake"@[4] == 'r' && "generate-flake"@[5] == 'a' && "generate-flake"@[6] == 't' && "generate-flake"@[7] == 'e' && "generate-flake"@[8] == '-' && "generate-flake"@[9] == 'f' && "generate-flake"@[10] == 'l' && "generate-flake"@[11] == 'a' && "generate-flake"@[12] == 'k' && "generate-flake"@[13] == 'e');
    reveal_strlit("git");
    assert("git"@.len() == 3 && "git"@[0] == 'g' && "git"@[1] == 'i' && "git"@[2] == 't');
    reveal_strlit("help");
    assert("help"@.len() == 4 && "help"@[0] == 'h' && "help"@[1] == 'e' && "help"@[2] == 'l' && "help"@[3] == 'p');
    reveal_strlit("key");
    assert("key"@.len() == 3 && "key"@[0] == 'k' && "key"@[1] == 'e' && "key"@[2] == 'y');
    reveal_strlit("list");
    assert("list"@.len() == 4 && "list"@[0] == 'l' && "list"@[1] == 'i' && "list"@[2] == 's' && "list"@[3] == 't');
    reveal_strlit("model");
    assert("model"@.len() == 5 && "model"@[0] == 'm' && "model"@[1] == 'o' && "model"@[2] == 'd' && "model"@[3] == 'e' && "model"@[4] == 'l');
    reveal_strlit("provider");
    assert("provider"@.len() == 8 && "provider"@[0] == 'p' && "provider"@[1] == 'r' && "provider"@[2] == 'o' && "provider"@[3] == 'v' && "provider"@[4] == 'i' && "provider"@[5] == 'd' && "provider"@[6] == 'e' && "provider"@[7] == 'r');
    reveal_strlit("serve");
    assert("serve"@.len() == 5 && "serve"@[0] == 's' && "serve"@[1] == 'e' && "serve"@[2] == 'r' && "serve"@[3] == 'v' && "serve"@[4] == 'e');
    reveal_strlit("skill");
    assert("skill"@.len() == 5 && "skill"@[0] == 's' && "skill"@[1] == 'k' && "skill"@[2] == 'i' && "skill"@[3] == 'l' && "skill"@[4] == 'l');
    reveal_strlit("status");
    assert("status"@.len() == 6 && "status"@[0] == 's' && "status"@[1] == 't' && "status"@[2] == 'a' && "status"@[3] == 't' && "status"@[4] == 'u' && "status"@[5] == 's');
    reveal_strlit("tool");
    assert("tool"@.len() == 4 && "tool"@[0] == 't' && "tool"@[1] == 'o' && "tool"@[2] == 'o' && "tool"@[3] == 'l');
}

/// `checkpoint <word> <arguments>` runs the checkpoint command of the same name, its
/// positional arguments reaching its fields in order and its optional
/// options left unset.
pub proof fn law_checkpoint_words_name_their_commands(prog: Seq<char>, w: Seq<char>, a: Seq<Seq<char>>, r: Result<Cli, CliError>)
    requires
        forall|j: int| 0 <= j < a.len() ==> is_plain(#[trigger] a[j]),
        parse_agrees(seq![prog, "checkpoint"@, w] + a, r),
    ensures
        (w == "clone"@ && a.len() == 2) ==> (r matches Ok(c) && c.command matches Commands::Checkpoint { command: CheckpointCommands::Clone { checkpoint_id, new_name } } && checkpoint_id@ == a[0] && new_name@ == a[1] && c.data_dir is None),
        (w == "list"@ && a.len() == 0) ==> (r matches Ok(c) && c.command matches Commands::Checkpoint { command: CheckpointCommands::List { agent } } && agent is None && c.data_dir is None),
{
    lemma_words_checkpoint();
    let args = seq![prog, "checkpoint"@, w] + a;
    assert(args.subrange(3, args.len() as int) =~= a);
    assert(args[1] == "checkpoint"@ && args[2] == w);
    assert forall|j: int| 3 <= j < args.len() implies #[trigger] args[j] == a[j - 3] by {}
    if w == "clone"@ && a.len() == 2 {
        assert forall|j: int| 1 <= j < args.len() implies is_plain(#[trigger] args[j]) by { if j >= 3 { assert(args[j] == a[j - 3]); } }
        lemma_parse_group_plain(args, Top::Checkpoint, Leaf::CheckpointClone);
        assert(r is Ok && r->Ok_0.command.shape().0 == Leaf::CheckpointClone);
        assert(r->Ok_0.command is Checkpoint);
        assert(r->Ok_0.command->Checkpoint_command is Clone);
        assert(r->Ok_0.command.shape().1[0] == a[0]);
        assert(r->Ok_0.command.shape().1[1] == a[1]);
    } else if w == "list"@ && a.len() == 0 {
        assert forall|j: int| 1 <= j < args.len() implies is_plain(#[trigger] args[j]) by { if j >= 3 { assert(args[j] == a[j - 3]); } }
        lemma_parse_group_plain(args, Top::Checkpoint, Leaf::CheckpointList);
        assert(r is Ok && r->Ok_0.command.shape().0 == Leaf::CheckpointList);
        assert(r->Ok_0.command is Checkpoint);
        assert(r->Ok_0.command->Checkpoint_command is List);
        assert(fresh(None, 1).vals[0] is None);
        assert(r->Ok_0.command.shape().2[0] is None);
    }
}

/// The word `git` and the words of its commands name what they say.
proof fn lemma_words_git()
    ensures
        top_of_word("git"@) == Some(Top::Git),
        is_plain("git"@) && "git"@ != "help"@,
        sub_of_word(Top::Git, "users"@) == Some(Leaf::GitUsers) && is_plain("users"@) && "users"@ != "help"@,
        sub_of_word(Top::Git, "create-user"@) == Some(Leaf::GitCreateUser) && is_plain("create-user"@) && "create-user"@ != "help"@,
        sub_of_word(Top::Git, "delete-user"@) == Some(Leaf::GitDeleteUser) && is_plain("delete-user"@) && "delete-user"@ != "help"@,
        sub_of_word(Top::Git, "orgs"@) == Some(Leaf::GitOrgs) && is_plain("orgs"@) && "orgs"@ != "help"@,
        sub_of_word(Top::Git, "create-org"@) == Some(Leaf::GitCreateOrg) && is_plain("create-org"@) && "create-org"@ != "help"@,
        sub_of_word(Top::Git, "delete-org"@) == Some(Leaf::GitDeleteOrg) && is_plain("delete-org"@) && "delete-org"@ != "help"@,
        sub_of_word(Top::Git, "repos"@) == Some(Leaf::GitRepos) && is_plain("repos"@) && "repos"@ != "help"@,
        sub_of_word(Top::Git, "create-repo"@) == Some(Leaf::GitCreateRepo) && is_plain("create-repo"@) && "create-repo"@ != "help"@,
        sub_of_word(Top::Git, "delete-repo"@) == Some(Leaf::GitDeleteRepo) && is_plain("delete-repo"@) && "delete-repo"@ != "help"@,
{
    reveal_strlit("agent");
    assert("agent"@.len() == 5 && "agent"@[0] == 'a' && "agent"@[1] == 'g' && "agent"@[2] == 'e' && "agent"@[3] == 'n' && "agent"@[4] == 't');
    reveal_strlit("apply");
    assert("apply"@.len() == 5 && "apply"@[0] == 'a' && "apply"@[1] == 'p' && "apply"@[2] == 'p' && "apply"@[3] == 'l' && "apply"@[4] == 'y');
    reveal_strlit("checkpoint");
    assert("checkpoint"@.len() == 10 && "checkpoint"@[0] == 'c' && "checkpoint"@[1] == 'h' && "checkpoint"@[2] == 'e' && "checkpoint"@[3] == 'c' && "checkpoint"@[4] == 'k' && "checkpoint"@[5] == 'p' && "checkpoint"@[6] == 'o' && "checkpoint"@[7] == 'i' && "checkpoint"@[8] == 'n' && "checkpoint"@[9] == 't');
    reveal_strlit("config");
    assert("config"@.len() == 6 && "config"@[0] == 'c' && "config"@[1] == 'o' && "config"@[2] == 'n' && "config"@[3] == 'f' && "config"@[4] == 'i' && "config"@[5] == 'g');
    reveal_strlit("create-org");
    assert("create-org"@.len() == 10 && "create-org"@[0] == 'c' && "create-org"@[1] == 'r' && "create-org"@[2] == 'e' && "create-org"@[3] == 'a' && "create-org"@[4] == 't' && "create-org"@[5] == 'e' && "create-org"@[6] == '-' && "create-org"@[7] == 'o' && "create-org"@[8] == 'r' && "create-org"@[9] == 'g');
    reveal_strlit("create-repo");
    assert("create-repo"@.len() == 11 && "create-repo"@[0] == 'c' && "create-repo"@[1] == 'r' && "create-repo"@[2] == 'e' && "create-repo"@[3] == 'a' && "create-repo"@[4] == 't' && "create-repo"@[5] == 'e' && "create-repo"@[6] == '-' && "create-repo"@[7] == 'r' && "create-repo"@[8] == 'e' && "create-repo"@[9] == 'p' && "create-repo"@[10] == 'o');
    reveal_strlit("create-user");
    assert("create-user"@.len() == 11 && "create-user"@[0] == 'c' && "create-user"@[1] == 'r' && "create-user"@[2] == 'e' && "create-user"@[3] == 'a' && "create-user"@[4] == 't' && "create-user"@[5] == 'e' && "create-user"@[6] == '-' && "create-user"@[7] == 'u' && "create-user"@[8] == 's' && "create-user"@[9] == 'e' && "create-user"@[10] == 'r');
    reveal_strlit("delete-org");
    assert("delete-org"@.len() == 10 && "delete-org"@[0] == 'd' && "delete-org"@[1] == 'e' && "delete-org"@[2] == 'l' && "delete-org"@[3] == 'e' && "delete-org"@[4] == 't' && "delete-org"@[5] == 'e' && "delete-org"@[6] == '-' && "delete-org"@[7] == 'o' && "delete-org"@[8] == 'r' && "delete-org"@[9] == 'g');
    reveal_strlit("delete-repo");
    assert("delete-repo"@.len() == 11 && "delete-repo"@[0] == 'd' && "delete-repo"@[1] == 'e' && "delete-repo"@[2] == 'l' && "delete-repo"@[3] == 'e' && "delete-repo"@[4] == 't' && "delete-repo"@[5] == 'e' && "delete-repo"@[6] == '-' && "delete-repo"@[7] == 'r' && "delete-repo"@[8] == 'e' && "delete-repo"@[9] == 'p' && "delete-repo"@[10] == 'o');
    reveal_strlit("delete-user");
    assert("delete-user"@.len() == 11 && "delete-user"@[0] == 'd' && "delete-user"@[1] == 'e' && "delete-user"@[2] == 'l' && "delete-user"@[3] == 'e' && "delete-user"@[4] == 't' && "delete-user"@[5] == 'e' && "delete-user"@[6] == '-' && "delete-user"@[7] == 'u' && "delete-user"@[8] == 's' && "delete-user"@[9] == 'e' && "delete-user"@[10] == 'r');
    reveal_strlit("generate-flake");
    assert("generate-flake"@.len() == 14 && "generate-flake"@[0] == 'g' && "generate-flake"@[1] == 'e' && "generate-flake"@[2] == 'n' && "generate-flake"@[3] == 'e' && "generate-flake"@[4] == 'r' && "generate-flake"@[5] == 'a' && "generate-flake"@[6] == 't' && "generate-flake"@[7] == 'e' && "generate-flake"@[8] == '-' && "generate-flake"@[9] == 'f' && "generate-flake"@[10] == 'l' && "generate-flake"@[11] == 'a' && "generate-flake"@[12] == 'k' && "generate-flake"@[13] == 'e');
    reveal_strlit("git");
    assert("git"@.len() == 3 && "git"@[0] == 'g' && "git"@[1] == 'i' && "git"@[2] == 't');
    reveal_strlit("help");
    assert("help"@.len() == 4 && "help"@[0] == 'h' && "help"@[1] == 'e' && "help"@[2] == 'l' && "help"@[3] == 'p');
    reveal_strlit("key");
    assert("key"@.len() == 3 && "key"@[0] == 'k' && "key"@[1] == 'e' && "key"@[2] == 'y');
    reveal_strlit("model");
    assert("model"@.len() == 5 && "model"@[0] == 'm' && "model"@[1] == 'o' && "model"@[2] == 'd' && "model"@[3] == 'e' && "model"@[4] == 'l');
    reveal_strlit("orgs");
    assert("orgs"@.len() == 4 && "orgs"@[0] == 'o' && "orgs"@[1] == 'r' && "orgs"@[2] == 'g' && "orgs"@[3] == 's');
    reveal_strlit("provider");
    assert("provider"@.len() == 8 && "provider"@[0] == 'p' && "provider"@[1] == 'r' && "provider"@[2] == 'o' && "provider"@[3] == 'v' && "provider"@[4] == 'i' && "provider"@[5] == 'd' && "provider"@[6] == 'e' && "provider"@[7] == 'r');
    reveal_strlit("repos");
    assert("repos"@.len() == 5 && "repos"@[0] == 'r' && "repos"@[1] == 'e' && "repos"@[2] == 'p' && "repos"@[3] == 'o' && "repos"@[4] == 's');
    reveal_strlit("serve");
    assert("serve"@.len() == 5 && "serve"@[0] == 's' && "serve"@[1] == 'e' && "serve"@[2] == 'r' && "serve"@[3] == 'v' && "serve"@[4] == 'e');
    reveal_strlit("skill");
    assert("skill"@.len() == 5 && "skill"@[0] == 's' && "skill"@[1] == 'k' && "skill"@[2] == 'i' && "skill"@[3] == 'l' && "skill"@[4] == 'l');
    reveal_strlit("status");
    assert("status"@.len() == 6 && "status"@[0] == 's' && "status"@[1] == 't' && "status"@[2] == 'a' && "status"@[3] == 't' && "status"@[4] == 'u' && "status"@[5] == 's');
    reveal_strlit("tool");
    assert("tool"@.len() == 4 && "tool"@[0] == 't' && "tool"@[1] == 'o' && "tool"@[2] == 'o' && "tool"@[3] == 'l');
    reveal_strlit("users");
    assert("users"@.len() == 5 && "users"@[0] == 'u' && "users"@[1] == 's' && "users"@[2] == 'e' && "users"@[3] == 'r' && "users"@[4] == 's');
}

/// `git <word> <arguments>` runs the git command of the same name, its
/// positional arguments reaching its fields in order and its optional
/// options left unset.
pub proof fn law_git_words_name_their_commands(prog: Seq<char>, w: Seq<char>, a: Seq<Seq<char>>, r: Result<Cli, CliError>)
    requires
        forall|j: int| 0 <= j < a.len() ==> is_plain(#[trigger] a[j]),
        parse_agrees(seq![prog, "git"@, w] + a, r),
    ensures
        (w == "users"@ && a.len() == 0) ==> (r matches Ok(c) && c.command matches Commands::Git { command: GitCommands::Users } && c.data_dir is None),
        (w == "create-user"@ && a.len() == 3) ==> (r matches Ok(c) && c.command matches Commands::Git { command: GitCommands::CreateUser { username, password, email } } && username@ == a[0] && password@ == a[1] && email@ == a[2] && c.data_dir is None),
        (w == "delete-user"@ && a.len() == 1) ==> (r matches Ok(c) && c.command matches Commands::Git { command: GitCommands::DeleteUser { username } } && username@ == a[0] && c.data_dir is None),
        (w == "orgs"@ && a.len() == 0) ==> (r matches Ok(c) && c.command matches Commands::Git { command: GitCommands::Orgs } && c.data_dir is None),
        (w == "create-org"@ && a.len() == 1) ==> (r matches Ok(c) && c.command matches Commands::Git { command: GitCommands::CreateOrg { name } } && name@ == a[0] && c.data_dir is None),
        (w == "delete-org"@ && a.len() == 1) ==> (r matches Ok(c) && c.command matches Commands::Git { command: GitCommands::DeleteOrg { name } } && name@ == a[0] && c.data_dir is None),
        (w == "repos"@ && a.len() == 0) ==> (r matches Ok(c) && c.command matches Commands::Git { command: GitCommands::Repos } && c.data_dir is None),
        (w == "create-repo"@ && a.len() == 2) ==> (r matches Ok(c) && c.command matches Commands::Git { command: GitCommands::CreateRepo { owner, name } } && owner@ == a[0] && name@ == a[1] && c.data_dir is None),
        (w == "delete-repo"@ && a.len() == 2) ==> (r matches Ok(c) && c.command matches Commands::Git { command: GitCommands::DeleteRepo { owner, name } } && owner@ == a[0] && name@ == a[1] && c.data_dir is None),
{
    lemma_words_git();
    let args = seq![prog, "git"@, w] + a;
    assert(args.subrange(3, args.len() as int) =~= a);
    assert(args[1] == "git"@ && args[2] == w);
    assert forall|j: int| 3 <= j < args.len() implies #[trigger] args[j] == a[j - 3] by {}
    if w == "users"@ && a.len() == 0 {
        assert forall|j: int| 1 <= j < args.len() implies is_plain(#[trigger] args[j]) by { if j >= 3 { assert(args[j] == a[j - 3]); } }
        lemma_parse_group_plain(args, Top::Git, Leaf::GitUsers);
        assert(r is Ok && r->Ok_0.command.shape().0 == Leaf::GitUsers);
        assert(r->Ok_0.command is Git);
        assert(r->Ok_0.command->Git_command is Users);
    } else if w == "create-user"@ && a.len() == 3 {
        assert forall|j: int| 1 <= j < args.len() implies is_plain(#[trigger] args[j]) by { if j >= 3 { assert(args[j] == a[j - 3]); } }
        lemma_parse_group_plain(args, Top::Git, Leaf::GitCreateUser);
        assert(r is Ok && r->Ok_0.command.shape().0 == Leaf::GitCreateUser);
        assert(r->Ok_0.command is Git);
        assert(r->Ok_0.command->Git_command is CreateUser);
        assert(r->Ok_0.command.shape().1[0] == a[0]);
        assert(r->Ok_0.command.shape().1[1] == a[1]);
        assert(r->Ok_0.command.shape().1[2] == a[2]);
    } else if w == "delete-user"@ && a.len() == 1 {
        assert forall|j: int| 1 <= j < args.len() implies is_plain(#[trigger] args[j]) by { if j >= 3 { assert(args[j] == a[j - 3]); } }
        lemma_parse_group_plain(args, Top::Git, Leaf::GitDeleteUser);
        assert(r is Ok && r->Ok_0.command.shape().0 == Leaf::GitDeleteUser);
        assert(r->Ok_0.command is Git);
        assert(r->Ok_0.command->Git_command is DeleteUser);
        assert(r->Ok_0.command.shape().1[0] == a[0]);
    } else if w == "orgs"@ && a.len() == 0 {
        assert forall|j: int| 1 <= j < args.len() implies is_plain(#[trigger] args[j]) by { if j >= 3 { assert(args[j] == a[j - 3]); } }
        lemma_parse_group_plain(args, Top::Git, Leaf::GitOrgs);
        assert(r is Ok && r->Ok_0.command.shape().0 == Leaf::GitOrgs);
        assert(r->Ok_0.command is Git);
        assert(r->Ok_0.command->Git_command is Orgs);
    } else if w == "create-org"@ && a.len() == 1 {
        assert forall|j: int| 1 <= j < args.len() implies is_plain(#[trigger] args[j]) by { if j >= 3 { assert(args[j] == a[j - 3]); } }
        lemma_parse_group_plain(args, Top::Git, Leaf::GitCreateOrg);
        assert(r is Ok && r->Ok_0.command.shape().0 == Leaf::GitCreateOrg);
        assert(r->Ok_0.command is Git);
        assert(r->Ok_0.command->Git_command is CreateOrg);
        assert(r->Ok_0.command.shape().1[0] == a[0]);
    } else if w == "delete-org"@ && a.len() == 1 {
        assert forall|j: int| 1 <= j < args.len() implies is_plain(#[trigger] args[j]) by { if j >= 3 { assert(args[j] == a[j - 3]); } }
        lemma_parse_group_plain(args, Top::Git, Leaf::GitDeleteOrg);
        assert(r is Ok && r->Ok_0.command.shape().0 == Leaf::GitDeleteOrg);
        assert(r->Ok_0.command is Git);
        assert(r->Ok_0.command->Git_command is DeleteOrg);
        assert(r->Ok_0.command.shape().1[0] == a[0]);
    } else if w == "repos"@ && a.len() == 0 {
        assert forall|j: int| 1 <= j < args.len() implies is_plain(#[trigger] args[j]) by { if j >= 3 { assert(args[j] == a[j - 3]); } }
        lemma_parse_group_plain(args, Top::Git, Leaf::GitRepos);
        assert(r is Ok && r->Ok_0.command.shape().0 == Leaf::GitRepos);
        assert(r->Ok_0.command is Git);
        assert(r->Ok_0.command->Git_command is Repos);
    } else if w == "create-repo"@ && a.len() == 2 {
        assert forall|j: int| 1 <= j < args.len() implies is_plain(#[trigger] args[j]) by { if j >= 3 { assert(args[j] == a[j - 3]); } }
        lemma_parse_group_plain(args, Top::Git, Leaf::GitCreateRepo);
        assert(r is Ok && r->Ok_0.command.shape().0 == Leaf::GitCreateRepo);
        assert(r->Ok_0.command is Git);
        assert(r->Ok_0.command->Git_command is CreateRepo);
        assert(r->Ok_0.command.shape().1[0] == a[0]);
        assert(r->Ok_0.command.shape().1[1] == a[1]);
    } else if w == "delete-repo"@ && a.len() == 2 {
        assert forall|j: int| 1 <= j < args.len() implies is_plain(#[trigger] args[j]) by { if j >= 3 { assert(args[j] == a[j - 3]); } }
        lemma_parse_group_plain(args, Top::Git, Leaf::GitDeleteRepo);
        assert(r is Ok && r->Ok_0.command.shape().0 == Leaf::GitDeleteRepo);
        assert(r->Ok_0.command is Git);
        assert(r->Ok_0.command->Git_command is DeleteRepo);
        assert(r->Ok_0.command.shape().1[0] == a[0]);
        assert(r->Ok_0.command.shape().1[1] == a[1]);
    }
}

/// The word `config` and the words of its commands name what they say.
proof fn lemma_words_config()
    ensures
        top_of_word("config"@) == Some(Top::Config),
        is_plain("config"@) && "config"@ != "help"@,
        sub_of_word(Top::Config, "export"@) == Some(Leaf::ConfigExport) && is_plain("export"@) && "export"@ != "help"@,
        sub_of_word(Top::Config, "import"@) == Some(Leaf::ConfigImport) && is_plain("import"@) && "import"@ != "help"@,
        sub_of_word(Top::Config, "sync"@) == Some(Leaf::ConfigSync) && is_plain("sync"@) && "sync"@ != "help"@,
{
    reveal_strlit("agent");
    assert("agent"@.len() == 5 && "agent"@[0] == 'a' && "agent"@[1] == 'g' && "agent"@[2] == 'e' && "agent"@[3] == 'n' && "agent"@[4] == 't');
    reveal_strlit("apply");
    assert("apply"@.len() == 5 && "apply"@[0] == 'a' && "apply"@[1] == 'p' && "apply"@[2] == 'p' && "apply"@[3] == 'l' && "apply"@[4] == 'y');
    reveal_strlit("checkpoint");
    assert("checkpoint"@.len() == 10 && "checkpoint"@[0] == 'c' && "checkpoint"@[1] == 'h' && "checkpoint"@[2] == 'e' && "checkpoint"@[3] == 'c' && "checkpoint"@[4] == 'k' && "checkpoint"@[5] == 'p' && "checkpoint"@[6] == 'o' && "checkpoint"@[7] == 'i' && "checkpoint"@[8] == 'n' && "checkpoint"@[9] == 't');
    reveal_strlit("config");
    assert("config"@.len() == 6 && "config"@[0] == 'c' && "config"@[1] == 'o' && "config"@[2] == 'n' && "config"@[3] == 'f' && "config"@[4] == 'i' && "config"@[5] == 'g');
    reveal_strlit("export");
    assert("export"@.len() == 6 && "export"@[0] == 'e' && "export"@[1] == 'x' && "export"@[2] == 'p' && "export"@[3] == 'o' && "export"@[4] == 'r' && "export"@[5] == 't');
    reveal_strlit("generate-flake");
    assert("generate-flake"@.len() == 14 && "generate-flake"@[0] == 'g' && "generate-flake"@[1] == 'e' && "generate-flake"@[2] == 'n' && "generate-flake"@[3] == 'e' && "generate-flake"@[4] == 'r' && "generate-flake"@[5] == 'a' && "generate-flake"@[6] == 't' && "generate-flake"@[7] == 'e' && "generate-flake"@[8] == '-' && "generate-flake"@[9] == 'f' && "generate-flake"@[10] == 'l' && "generate-flake"@[11] == 'a' && "generate-flake"@[12] == 'k' && "generate-flake"@[13] == 'e');
    reveal_strlit("git");
    assert("git"@.len() == 3 && "git"@[0] == 'g' && "git"@[1] == 'i' && "git"@[2] == 't');
    reveal_strlit("help");
    assert("help"@.len() == 4 && "help"@[0] == 'h' && "help"@[1] == 'e' && "help"@[2] == 'l' && "help"@[3] == 'p');
    reveal_strlit("import");
    assert("import"@.len() == 6 && "import"@[0] == 'i' && "import"@[1] == 'm' && "import"@[2] == 'p' && "import"@[3] == 'o' && "import"@[4] == 'r' && "import"@[5] == 't');
    reveal_strlit("key");
    assert("key"@.len() == 3 && "key"@[0] == 'k' && "key"@[1] == 'e' && "key"@[2] == 'y');
    reveal_strlit("model");
    assert("model"@.len() == 5 && "model"@[0] == 'm' && "model"@[1] == 'o' && "model"@[2] == 'd' && "model"@[3] == 'e' && "model"@[4] == 'l');
    reveal_strlit("provider");
    assert("provider"@.len() == 8 && "provider"@[0] == 'p' && "provider"@[1] == 'r' && "provider"@[2] == 'o' && "provider"@[3] == 'v' && "provider"@[4] == 'i' && "provider"@[5] == 'd' && "provider"@[6] == 'e' && "provider"@[7] == 'r');
    reveal_strlit("serve");
    assert("serve"@.len() == 5 && "serve"@[0] == 's' && "serve"@[1] == 'e' && "serve"@[2] == 'r' && "serve"@[3] == 'v' && "serve"@[4] == 'e');
    reveal_strlit("skill");
    assert("skill"@.len() == 5 && "skill"@[0] == 's' && "skill"@[1] == 'k' && "skill"@[2] == 'i' && "skill"@[3] == 'l' && "skill"@[4] == 'l');
    reveal_strlit("status");
    assert("status"@.len() == 6 && "status"@[0] == 's' && "status"@[1] == 't' && "status"@[2] == 'a' && "status"@[3] == 't' && "status"@[4] == 'u' && "status"@[5] == 's');
    reveal_strlit("sync");
    assert("sync"@.len() == 4 && "sync"@[0] == 's' && "sync"@[1] == 'y' && "sync"@[2] == 'n' && "sync"@[3] == 'c');
    reveal_strlit("tool");
    assert("tool"@.len() == 4 && "tool"@[0] == 't' && "tool"@[1] == 'o' && "tool"@[2] == 'o' && "tool"@[3] == 'l');
}

/// `config <word> <arguments>` runs the config command of the same name, its
/// positional arguments reaching its fields in order and its optional
/// options left unset.
pub proof fn law_config_words_name_their_commands(prog: Seq<char>, w: Seq<char>, a: Seq<Seq<char>>, r: Result<Cli, CliError>)
    requires
        forall|j: int| 0 <= j < a.len() ==> is_plain(#[trigger] a[j]),
        parse_agrees(seq![prog, "config"@, w] + a, r),
    ensures
        (w == "export"@ && a.len() == 0) ==> (r matches Ok(c) && c.command matches Commands::Config { command: ConfigCommands::Export } && c.data_dir is None),
        (w == "import"@ && a.len() == 0) ==> (r matches Ok(c) && c.command matches Commands::Config { command: ConfigCommands::Import } && c.data_dir is None),
        (w == "sync"@ && a.len() == 0) ==> (r matches Ok(c) && c.command matches Commands::Config { command: ConfigCommands::Sync { delete } } && !delete && c.data_dir is None),
{
    lemma_words_config();
    let args = seq![prog, "config"@, w] + a;
    assert(args.subrange(3, args.len() as int) =~= a);
    assert(args[1] == "config"@ && args[2] == w);
    assert forall|j: int| 3 <= j < args.len() implies #[trigger] args[j] == a[j - 3] by {}
    if w == "export"@ && a.len() == 0 {
        assert forall|j: int| 1 <= j < args.len() implies is_plain(#[trigger] args[j]) by { if j >= 3 { assert(args[j] == a[j - 3]); } }
        lemma_parse_group_plain(args, Top::Config, Leaf::ConfigExport);
        assert(r is Ok && r->Ok_0.command.shape().0 == Leaf::ConfigExport);
        assert(r->Ok_0.command is Config);
        assert(r->Ok_0.command->Config_command is Export);
    } else if w == "import"@ && a.len() == 0 {
        assert forall|j: int| 1 <= j < args.len() implies is_plain(#[trigger] args[j]) by { if j >= 3 { assert(args[j] == a[j - 3]); } }
        lemma_parse_group_plain(args, Top::Config, Leaf::ConfigImport);
        assert(r is Ok && r->Ok_0.command.shape().0 == Leaf::ConfigImport);
        assert(r->Ok_0.command is Config);
        assert(r->Ok_0.command->Config_command is Import);
    } else if w == "sync"@ && a.len() == 0 {
        assert forall|j: int| 1 <= j < args.len() implies is_plain(#[trigger] args[j]) by { if j >= 3 { assert(args[j] == a[j - 3]); } }
        lemma_parse_group_plain(args, Top::Config, Leaf::ConfigSync);
        assert(r is Ok && r->Ok_0.command.shape().0 == Leaf::ConfigSync);
        assert(r->Ok_0.command is Config);
        assert(r->Ok_0.command->Config_command is Sync);
        assert(fresh(None, 1).vals[0] is None);
        assert(r->Ok_0.command.shape().2[0] is None);
    }
}

/// The word `provider` and the words of its commands name what they say.
proof fn lemma_words_provider()
    ensures
        top_of_word("provider"@) == Some(Top::Provider),
        is_plain("provider"@) && "provider"@ != "help"@,
        sub_of_word(Top::Provider, "list"@) == Some(Leaf::ProviderList) && is_plain("list"@) && "list"@ != "help"@,
        sub_of_word(Top::Provider, "create"@) == Some(Leaf::ProviderCreate) && is_plain("create"@) && "create"@ != "help"@,
        sub_of_word(Top::Provider, "delete"@) == Some(Leaf::ProviderDelete) && is_plain("delete"@) && "delete"@ != "help"@,
{
    reveal_strlit("agent");
    assert("agent"@.len() == 5 && "agent"@[0] == 'a' && "agent"@[1] == 'g' && "agent"@[2] == 'e' && "agent"@[3] == 'n' && "agent"@[4] == 't');
    reveal_strlit("apply");
    assert("apply"@.len() == 5 && "apply"@[0] == 'a' && "apply"@[1] == 'p' && "apply"@[2] == 'p' && "apply"@[3] == 'l' && "apply"@[4] == 'y');
    reveal_strlit("checkpoint");
    assert("checkpoint"@.len() == 10 && "checkpoint"@[0] == 'c' && "checkpoint"@[1] == 'h' && "checkpoint"@[2] == 'e' && "checkpoint"@[3] == 'c' && "checkpoint"@[4] == 'k' && "checkpoint"@[5] == 'p' && "checkpoint"@[6] == 'o' && "checkpoint"@[7] == 'i' && "checkpoint"@[8] == 'n' && "checkpoint"@[9] == 't');
    reveal_strlit("config");
    assert("config"@.len() == 6 && "config"@[0] == 'c' && "config"@[1] == 'o' && "config"@[2] == 'n' && "config"@[3] == 'f' && "config"@[4] == 'i' && "config"@[5] == 'g');
    reveal_strlit("create");
    assert("create"@.len() == 6 && "create"@[0] == 'c' && "create"@[1] == 'r' && "create"@[2] == 'e' && "create"@[3] == 'a' && "create"@[4] == 't' && "create"@[5] == 'e');
    reveal_strlit("delete");
    assert("delete"@.len() == 6 && "delete"@[0] == 'd' && "delete"@[1] == 'e' && "delete"@[2] == 'l' && "delete"@[3] == 'e' && "delete"@[4] == 't' && "delete"@[5] == 'e');
    reveal_strlit("generate-flake");
    assert("generate-flake"@.len() == 14 && "generate-flake"@[0] == 'g' && "generate-flake"@[1] == 'e' && "generate-flake"@[2] == 'n' && "generate-flake"@[3] == 'e' && "generate-flake"@[4] == 'r' && "generate-flake"@[5] == 'a' && "generate-flake"@[6] == 't' && "generate-flake"@[7] == 'e' && "generate-flake"@[8] == '-' && "generate-flake"@[9] == 'f' && "generate-flake"@[10] == 'l' && "generate-flake"@[11] == 'a' && "generate-flake"@[12] == 'k' && "generate-flake"@[13] == 'e');
    reveal_strlit("git");
    assert("git"@.len() == 3 && "git"@[0] == 'g' && "git"@[1] == 'i' && "git"@[2] == 't');
    reveal_strlit("help");
    assert("help"@.len() == 4 && "help"@[0] == 'h' && "help"@[1] == 'e' && "help"@[2] == 'l' && "help"@[3] == 'p');
    reveal_strlit("key");
    assert("key"@.len() == 3 && "key"@[0] == 'k' && "key"@[1] == 'e' && "key"@[2] == 'y');
    reveal_strlit("list");
    assert("list"@.len() == 4 && "list"@[0] == 'l' && "list"@[1] == 'i' && "list"@[2] == 's' && "list"@[3] == 't');
    reveal_strlit("model");
    assert("model"@.len() == 5 && "model"@[0] == 'm' && "model"@[1] == 'o' && "model"@[2] == 'd' && "model"@[3] == 'e' && "model"@[4] == 'l');
    reveal_strlit("provider");
    assert("provider"@.len() == 8 && "provider"@[0] == 'p' && "provider"@[1] == 'r' && "provider"@[2] == 'o' && "provider"@[3] == 'v' && "provider"@[4] == 'i' && "provider"@[5] == 'd' && "provider"@[6] == 'e' && "provider"@[7] == 'r');
    reveal_strlit("serve");
    assert("serve"@.len() == 5 && "serve"@[0] == 's' && "serve"@[1] == 'e' && "serve"@[2] == 'r' && "serve"@[3] == 'v' && "serve"@[4] == 'e');
    reveal_strlit("skill");
    assert("skill"@.len() == 5 && "skill"@[0] == 's' && "skill"@[1] == 'k' && "skill"@[2] == 'i' && "skill"@[3] == 'l' && "skill"@[4] == 'l');
    reveal_strlit("status");
    assert("status"@.len() == 6 && "status"@[0] == 's' && "status"@[1] == 't' && "status"@[2] == 'a' && "status"@[3] == 't' && "status"@[4] == 'u' && "status"@[5] == 's');
    reveal_strlit("tool");
    assert("tool"@.len() == 4 && "tool"@[0] == 't' && "tool"@[1] == 'o' && "tool"@[2] == 'o' && "tool"@[3] == 'l');
}

/// `provider <word> <arguments>` runs the provider command of the same name, its
/// positional arguments reaching its fields in order and its optional
/// options left unset.
pub proof fn law_provider_words_name_their_commands(prog: Seq<char>, w: Seq<char>, a: Seq<Seq<char>>, r: Result<Cli, CliError>)
    requires
        forall|j: int| 0 <= j < a.len() ==> is_plain(#[trigger] a[j]),
        parse_agrees(seq![prog, "provider"@, w] + a, r),
    ensures
        (w == "list"@ && a.len() == 0) ==> (r matches Ok(c) && c.command matches Commands::Provider { command: ProviderCommands::List } && c.data_dir is None),
        (w == "create"@ && a.len() == 4) ==> (r matches Ok(c) && c.command matches Commands::Provider { command: ProviderCommands::Create { name, provider_type, base_url, api_key } } && name@ == a[0] && provider_type@ == a[1] && base_url@ == a[2] && api_key@ == a[3] && c.data_dir is None),
        (w == "delete"@ && a.len() == 1) ==> (r matches Ok(c) && c.command matches Commands::Provider { command: ProviderCommands::Delete { id } } && id@ == a[0] && c.data_dir is None),
{
    lemma_words_provider();
    let args = seq![prog, "provider"@, w] + a;
    assert(args.subrange(3, args.len() as int) =~= a);
    assert(args[1] == "provider"@ && args[2] == w);
    assert forall|j: int| 3 <= j < args.len() implies #[trigger] args[j] == a[j - 3] by {}
    if w == "list"@ && a.len() == 0 {
        assert forall|j: int| 1 <= j < args.len() implies is_plain(#[trigger] args[j]) by { if j >= 3 { assert(args[j] == a[j - 3]); } }
        lemma_parse_group_plain(args, Top::Provider, Leaf::ProviderList);
        assert(r is Ok && r->Ok_0.command.shape().0 == Leaf::ProviderList);
        assert(r->Ok_0.command is Provider);
        assert(r->Ok_0.command->Provider_command is List);
    } else if w == "create"@ && a.len() == 4 {
        assert forall|j: int| 1 <= j < args.len() implies is_plain(#[trigger] args[j]) by { if j >= 3 { assert(args[j] == a[j - 3]); } }
        lemma_parse_group_plain(args, Top::Provider, Leaf::ProviderCreate);
        assert(r is Ok && r->Ok_0.command.shape().0 == Leaf::ProviderCreate);
        assert(r->Ok_0.command is Provider);
        assert(r->Ok_0.command->Provider_command is Create);
        assert(r->Ok_0.command.shape().1[0] == a[0]);
        assert(r->Ok_0.command.shape().1[1] == a[1]);
        assert(r->Ok_0.command.shape().1[2] == a[2]);
        assert(r->Ok_0.command.shape().1[3] == a[3]);
    } else if w == "delete"@ && a.len() == 1 {
        assert forall|j: int| 1 <= j < args.len() implies is_plain(#[trigger] args[j]) by { if j >= 3 { assert(args[j] == a[j - 3]); } }
        lemma_parse_group_plain(args, Top::Provider, Leaf::ProviderDelete);
        assert(r is Ok && r->Ok_0.command.shape().0 == Leaf::ProviderDelete);
        assert(r->Ok_0.command is Provider);
        assert(r->Ok_0.command->Provider_command is Delete);
        assert(r->Ok_0.command.shape().1[0] == a[0]);
    }
}

/// The word `model` and the words of its commands name what they say.
proof fn lemma_words_model()
    ensures
        top_of_word("model"@) == Some(Top::Model),
        is_plain("model"@) && "model"@ != "help"@,
        sub_of_word(Top::Model, "list"@) == Some(Leaf::ModelList) && is_plain("list"@) && "list"@ != "help"@,
        sub_of_word(Top::Model, "delete"@) == Some(Leaf::ModelDelete) && is_plain("delete"@) && "delete"@ != "help"@,
        sub_of_word(Top::Model, "create"@) == Some(Leaf::ModelCreate) && is_plain("create"@) && "create"@ != "help"@,
{
    reveal_strlit("agent");
    assert("agent"@.len() == 5 && "agent"@[0] == 'a' && "agent"@[1] == 'g' && "agent"@[2] == 'e' && "agent"@[3] == 'n' && "agent"@[4] == 't');
    reveal_strlit("apply");
    assert("apply"@.len() == 5 && "apply"@[0] == 'a' && "apply"@[1] == 'p' && "apply"@[2] == 'p' && "apply"@[3] == 'l' && "apply"@[4] == 'y');
    reveal_strlit("checkpoint");
    assert("checkpoint"@.len() == 10 && "checkpoint"@[0] == 'c' && "checkpoint"@[1] == 'h' && "checkpoint"@[2] == 'e' && "checkpoint"@[3] == 'c' && "checkpoint"@[4] == 'k' && "checkpoint"@[5] == 'p' && "checkpoint"@[6] == 'o' && "checkpoint"@[7] == 'i' && "checkpoint"@[8] == 'n' && "checkpoint"@[9] == 't');
    reveal_strlit("config");
    assert("config"@.len() == 6 && "config"@[0] == 'c' && "config"@[1] == 'o' && "config"@[2] == 'n' && "config"@[3] == 'f' && "config"@[4] == 'i' && "config"@[5] == 'g');
    reveal_strlit("create");
    assert("create"@.len() == 6 && "create"@[0] == 'c' && "create"@[1] == 'r' && "create"@[2] == 'e' && "create"@[3] == 'a' && "create"@[4] == 't' && "create"@[5] == 'e');
    reveal_strlit("delete");
    assert("delete"@.len() == 6 && "delete"@[0] == 'd' && "delete"@[1] == 'e' && "delete"@[2] == 'l' && "delete"@[3] == 'e' && "delete"@[4] == 't' && "delete"@[5] == 'e');
    reveal_strlit("generate-flake");
    assert("generate-flake"@.len() == 14 && "generate-flake"@[0] == 'g' && "generate-flake"@[1] == 'e' && "generate-flake"@[2] == 'n' && "generate-flake"@[3] == 'e' && "generate-flake"@[4] == 'r' && "generate-flake"@[5] == 'a' && "generate-flake"@[6] == 't' && "generate-flake"@[7] == 'e' && "generate-flake"@[8] == '-' && "generate-flake"@[9] == 'f' && "generate-flake"@[10] == 'l' && "generate-flake"@[11] == 'a' && "generate-flake"@[12] == 'k' && "generate-flake"@[13] == 'e');
    reveal_strlit("git");
    assert("git"@.len() == 3 && "git"@[0] == 'g' && "git"@[1] == 'i' && "git"@[2] == 't');
    reveal_strlit("help");
    assert("help"@.len() == 4 && "help"@[0] == 'h' && "help"@[1] == 'e' && "help"@[2] == 'l' && "help"@[3] == 'p');
    reveal_strlit("key");
    assert("key"@.len() == 3 && "key"@[0] == 'k' && "key"@[1] == 'e' && "key"@[2] == 'y');
    reveal_strlit("list");
    assert("list"@.len() == 4 && "list"@[0] == 'l' && "list"@[1] == 'i' && "list"@[2] == 's' && "list"@[3] == 't');
    reveal_strlit("model");
    assert("model"@.len() == 5 && "model"@[0] == 'm' && "model"@[1] == 'o' && "model"@[2] == 'd' && "model"@[3] == 'e' && "model"@[4] == 'l');
    reveal_strlit("provider");
    assert("provider"@.len() == 8 && "provider"@[0] == 'p' && "provider"@[1] == 'r' && "provider"@[2] == 'o' && "provider"@[3] == 'v' && "provider"@[4] == 'i' && "provider"@[5] == 'd' && "provider"@[6] == 'e' && "provider"@[7] == 'r');
    reveal_strlit("serve");
    assert("serve"@.len() == 5 && "serve"@[0] == 's' && "serve"@[1] == 'e' && "serve"@[2] == 'r' && "serve"@[3] == 'v' && "serve"@[4] == 'e');
    reveal_strlit("skill");
    assert("skill"@.len() == 5 && "skill"@[0] == 's' && "skill"@[1] == 'k' && "skill"@[2] == 'i' && "skill"@[3] == 'l' && "skill"@[4] == 'l');
    reveal_strlit("status");
    assert("status"@.len() == 6 && "status"@[0] == 's' && "status"@[1] == 't' && "status"@[2] == 'a' && "status"@[3] == 't' && "status"@[4] == 'u' && "status"@[5] == 's');
    reveal_strlit("tool");
    assert("tool"@.len() == 4 && "tool"@[0] == 't' && "tool"@[1] == 'o' && "tool"@[2] == 'o' && "tool"@[3] == 'l');
}

/// `model <word> <arguments>` runs the model command of the same name, its
/// positional arguments reaching its fields in order and its optional
/// options left unset.
pub proof fn law_model_words_name_their_commands(prog: Seq<char>, w: Seq<char>, a: Seq<Seq<char>>, r: Result<Cli, CliError>)
    requires
        forall|j: int| 0 <= j < a.len() ==> is_plain(#[trigger] a[j]),
        parse_agrees(seq![prog, "model"@, w] + a, r),
    ensures
        (w == "list"@ && a.len() == 0) ==> (r matches Ok(c) && c.command matches Commands::Model { command: ModelCommands::List } && c.data_dir is None),
        (w == "delete"@ && a.len() == 1) ==> (r matches Ok(c) && c.command matches Commands::Model { command: ModelCommands::Delete { id } } && id@ == a[0] && c.data_dir is None),
{
    lemma_words_model();
    let args = seq![prog, "model"@, w] + a;
    assert(args.subrange(3, args.len() as int) =~= a);
    assert(args[1] == "model"@ && args[2] == w);
    assert forall|j: int| 3 <= j < args.len() implies #[trigger] args[j] == a[j - 3] by {}
    if w == "list"@ && a.len() == 0 {
        assert forall|j: int| 1 <= j < args.len() implies is_plain(#[trigger] args[j]) by { if j >= 3 { assert(args[j] == a[j - 3]); } }
        lemma_parse_group_plain(args, Top::Model, Leaf::ModelList);
        assert(r is Ok && r->Ok_0.command.shape().0 == Leaf::ModelList);
        assert(r->Ok_0.command is Model);
        assert(r->Ok_0.command->Model_command is List);
    } else if w == "delete"@ && a.len() == 1 {
        assert forall|j: int| 1 <= j < args.len() implies is_plain(#[trigger] args[j]) by { if j >= 3 { assert(args[j] == a[j - 3]); } }
        lemma_parse_group_plain(args, Top::Model, Leaf::ModelDelete);
        assert(r is Ok && r->Ok_0.command.shape().0 == Leaf::ModelDelete);
        assert(r->Ok_0.command is Model);
        assert(r->Ok_0.command->Model_command is Delete);
        assert(r->Ok_0.command.shape().1[0] == a[0]);
    }
}

/// The word `skill` and the words of its commands name what they say.
proof fn lemma_words_skill()
    ensures
        top_of_word("skill"@) == Some(Top::Skill),
        is_plain("skill"@) && "skill"@ != "help"@,
        sub_of_word(Top::Skill, "list"@) == Some(Leaf::SkillList) && is_plain("list"@) && "list"@ != "help"@,
        sub_of_word(Top::Skill, "pull"@) == Some(Leaf::SkillPull) && is_plain("pull"@) && "pull"@ != "help"@,
        sub_of_word(Top::Skill, "get"@) == Some(Leaf::SkillGet) && is_plain("get"@) && "get"@ != "help"@,
        sub_of_word(Top::Skill, "delete"@) == Some(Leaf::SkillDelete) && is_plain("delete"@) && "delete"@ != "help"@,
        sub_of_word(Top::Skill, "clone"@) == Some(Leaf::SkillClone) && is_plain("clone"@) && "clone"@ != "help"@,
{
    reveal_strlit("agent");
    assert("agent"@.len() == 5 && "agent"@[0] == 'a' && "agent"@[1] == 'g' && "agent"@[2] == 'e' && "agent"@[3] == 'n' && "agent"@[4] == 't');
    reveal_strlit("apply");
    assert("apply"@.len() == 5 && "apply"@[0] == 'a' && "apply"@[1] == 'p' && "apply"@[2] == 'p' && "apply"@[3] == 'l' && "apply"@[4] == 'y');
    reveal_strlit("checkpoint");
    assert("checkpoint"@.len() == 10 && "checkpoint"@[0] == 'c' && "checkpoint"@[1] == 'h' && "checkpoint"@[2] == 'e' && "checkpoint"@[3] == 'c' && "checkpoint"@[4] == 'k' && "checkpoint"@[5] == 'p' && "checkpoint"@[6] == 'o' && "checkpoint"@[7] == 'i' && "checkpoint"@[8] == 'n' && "checkpoint"@[9] == 't');
    reveal_strlit("clone");
    assert("clone"@.len() == 5 && "clone"@[0] == 'c' && "clone"@[1] == 'l' && "clone"@[2] == 'o' && "clone"@[3] == 'n' && "clone"@[4] == 'e');
    reveal_strlit("config");
    assert("config"@.len() == 6 && "config"@[0] == 'c' && "config"@[1] == 'o' && "config"@[2] == 'n' && "config"@[3] == 'f' && "config"@[4] == 'i' && "config"@[5] == 'g');
    reveal_strlit("delete");
    assert("delete"@.len() == 6 && "delete"@[0] == 'd' && "delete"@[1] == 'e' && "delete"@[2] == 'l' && "delete"@[3] == 'e' && "delete"@[4] == 't' && "delete"@[5] == 'e');
    reveal_strlit("generate-flake");
    assert("generate-flake"@.len() == 14 && "generate-flake"@[0] == 'g' && "generate-flake"@[1] == 'e' && "generate-flake"@[2] == 'n' && "generate-flake"@[3] == 'e' && "generate-flake"@[4] == 'r' && "generate-flake"@[5] == 'a' && "generate-flake"@[6] == 't' && "generate-flake"@[7] == 'e' && "generate-flake"@[8] == '-' && "generate-flake"@[9] == 'f' && "generate-flake"@[10] == 'l' && "generate-flake"@[11] == 'a' && "generate-flake"@[12] == 'k' && "generate-flake"@[13] == 'e');
    reveal_strlit("get");
    assert("get"@.len() == 3 && "get"@[0] == 'g' && "get"@[1] == 'e' && "get"@[2] == 't');
    reveal_strlit("git");
    assert("git"@.len() == 3 && "git"@[0] == 'g' && "git"@[1] == 'i' && "git"@[2] == 't');
    reveal_strlit("help");
    assert("help"@.len() == 4 && "help"@[0] == 'h' && "help"@[1] == 'e' && "help"@[2] == 'l' && "help"@[3] == 'p');
    reveal_strlit("key");
    assert("key"@.len() == 3 && "key"@[0] == 'k' && "key"@[1] == 'e' && "key"@[2] == 'y');
    reveal_strlit("list");
    assert("list"@.len() == 4 && "list"@[0] == 'l' && "list"@[1] == 'i' && "list"@[2] == 's' && "list"@[3] == 't');
    reveal_strlit("model");
    assert("model"@.len() == 5 && "model"@[0] == 'm' && "model"@[1] == 'o' && "model"@[2] == 'd' && "model"@[3] == 'e' && "model"@[4] == 'l');
    reveal_strlit("provider");
    assert("provider"@.len() == 8 && "provider"@[0] == 'p' && "provider"@[1] == 'r' && "provider"@[2] == 'o' && "provider"@[3] == 'v' && "provider"@[4] == 'i' && "provider"@[5] == 'd' && "provider"@[6] == 'e' && "provider"@[7] == 'r');
    reveal_strlit("pull");
    assert("pull"@.len() == 4 && "pull"@[0] == 'p' && "pull"@[1] == 'u' && "pull"@[2] == 'l' && "pull"@[3] == 'l');
    reveal_strlit("serve");
    assert("serve"@.len() == 5 && "serve"@[0] == 's' && "serve"@[1] == 'e' && "serve"@[2] == 'r' && "serve"@[3] == 'v' && "serve"@[4] == 'e');
    reveal_strlit("skill");
    assert("skill"@.len() == 5 && "skill"@[0] == 's' && "skill"@[1] == 'k' && "skill"@[2] == 'i' && "skill"@[3] == 'l' && "skill"@[4] == 'l');
    reveal_strlit("status");
    assert("status"@.len() == 6 && "status"@[0] == 's' && "status"@[1] == 't' && "status"@[2] == 'a' && "status"@[3] == 't' && "status"@[4] == 'u' && "status"@[5] == 's');
    reveal_strlit("tool");
    assert("tool"@.len() == 4 && "tool"@[0] == 't' && "tool"@[1] == 'o' && "tool"@[2] == 'o' && "tool"@[3] == 'l');
}

/// `skill <word> <arguments>` runs the skill command of the same name, its
/// positional arguments reaching its fields in order and its optional
/// options left unset.
pub proof fn law_skill_words_name_their_commands(prog: Seq<char>, w: Seq<char>, a: Seq<Seq<char>>, r: Result<Cli, CliError>)
    requires
        forall|j: int| 0 <= j < a.len() ==> is_plain(#[trigger] a[j]),
        parse_agrees(seq![prog, "skill"@, w] + a, r),
    ensures
        (w == "list"@ && a.len() == 0) ==> (r matches Ok(c) && c.command matches Commands::Skill { command: SkillCommands::List } && c.data_dir is None),
        (w == "pull"@ && a.len() == 1) ==> (r matches Ok(c) && c.command matches Commands::Skill { command: SkillCommands::Pull { slug } } && slug@ == a[0] && c.data_dir is None),
        (w == "get"@ && a.len() == 1) ==> (r matches Ok(c) && c.command matches Commands::Skill { command: SkillCommands::Get { slug } } && slug@ == a[0] && c.data_dir is None),
        (w == "delete"@ && a.len() == 1) ==> (r matches Ok(c) && c.command matches Commands::Skill { command: SkillCommands::Delete { slug } } && slug@ == a[0] && c.data_dir is None),
{
    lemma_words_skill();
    let args = seq![prog, "skill"@, w] + a;
    assert(args.subrange(3, args.len() as int) =~= a);
    assert(args[1] == "skill"@ && args[2] == w);
    assert forall|j: int| 3 <= j < args.len() implies #[trigger] args[j] == a[j - 3] by {}
    if w == "list"@ && a.len() == 0 {
        assert forall|j: int| 1 <= j < args.len() implies is_plain(#[trigger] args[j]) by { if j >= 3 { assert(args[j] == a[j - 3]); } }
        lemma_parse_group_plain(args, Top::Skill, Leaf::SkillList);
        assert(r is Ok && r->Ok_0.command.shape().0 == Leaf::SkillList);
        assert(r->Ok_0.command is Skill);
        assert(r->Ok_0.command->Skill_command is List);
    } else if w == "pull"@ && a.len() == 1 {
        assert forall|j: int| 1 <= j < args.len() implies is_plain(#[trigger] args[j]) by { if j >= 3 { assert(args[j] == a[j - 3]); } }
        lemma_parse_group_plain(args, Top::Skill, Leaf::SkillPull);
        assert(r is Ok && r->Ok_0.command.shape().0 == Leaf::SkillPull);
        assert(r->Ok_0.command is Skill);
        assert(r->Ok_0.command->Skill_command is Pull);
        assert(r->Ok_0.command.shape().1[0] == a[0]);
    } else if w == "get"@ && a.len() == 1 {
        assert forall|j: int| 1 <= j < args.len() implies is_plain(#[trigger] args[j]) by { if j >= 3 { assert(args[j] == a[j - 3]); } }
        lemma_parse_group_plain(args, Top::Skill, Leaf::SkillGet);
        assert(r is Ok && r->Ok_0.command.shape().0 == Leaf::SkillGet);
        assert(r->Ok_0.command is Skill);
        assert(r->Ok_0.command->Skill_command is Get);
        assert(r->Ok_0.command.shape().1[0] == a[0]);
    } else if w == "delete"@ && a.len() == 1 {
        assert forall|j: int| 1 <= j < args.len() implies is_plain(#[trigger] args[j]) by { if j >= 3 { assert(args[j] == a[j - 3]); } }
        lemma_parse_group_plain(args, Top::Skill, Leaf::SkillDelete);
        assert(r is Ok && r->Ok_0.command.shape().0 == Leaf::SkillDelete);
        assert(r->Ok_0.command is Skill);
        assert(r->Ok_0.command->Skill_command is Delete);
        assert(r->Ok_0.command.shape().1[0] == a[0]);
    }
}

/// The word `tool` and the words of its commands name what they say.
proof fn lemma_words_tool()
    ensures
        top_of_word("tool"@) == Some(Top::Tool),
        is_plain("tool"@) && "tool"@ != "help"@,
        sub_of_word(Top::Tool, "list"@) == Some(Leaf::ToolList) && is_plain("list"@) && "list"@ != "help"@,
        sub_of_word(Top::Tool, "pull"@) == Some(Leaf::ToolPull) && is_plain("pull"@) && "pull"@ != "help"@,
        sub_of_word(Top::Tool, "get"@) == Some(Leaf::ToolGet) && is_plain("get"@) && "get"@ != "help"@,
        sub_of_word(Top::Tool, "delete"@) == Some(Leaf::ToolDelete) && is_plain("delete"@) && "delete"@ != "help"@,
        sub_of_word(Top::Tool, "authorize"@) == Some(Leaf::ToolAuthorize) && is_plain("authorize"@) && "authorize"@ != "help"@,
        sub_of_word(Top::Tool, "revoke"@) == Some(Leaf::ToolRevoke) && is_plain("revoke"@) && "revoke"@ != "help"@,
        sub_of_word(Top::Tool, "set-env"@) == Some(Leaf::ToolSetEnv) && is_plain("set-env"@) && "set-env"@ != "help"@,
        sub_of_word(Top::Tool, "list-env"@) == Some(Leaf::ToolListEnv) && is_plain("list-env"@) && "list-env"@ != "help"@,
        sub_of_word(Top::Tool, "delete-env"@) == Some(Leaf::ToolDeleteEnv) && is_plain("delete-env"@) && "delete-env"@ != "help"@,
        sub_of_word(Top::Tool, "clone"@) == Some(Leaf::ToolClone) && is_plain("clone"@) && "clone"@ != "help"@,
        sub_of_word(Top::Tool, "invoke"@) == Some(Leaf::ToolInvoke) && is_plain("invoke"@) && "invoke"@ != "help"@,
{
    reveal_strlit("agent");
    assert("agent"@.len() == 5 && "agent"@[0] == 'a' && "agent"@[1] == 'g' && "agent"@[2] == 'e' && "agent"@[3] == 'n' && "agent"@[4] == 't');
    reveal_strlit("apply");
    assert("apply"@.len() == 5 && "apply"@[0] == 'a' && "apply"@[1] == 'p' && "apply"@[2] == 'p' && "apply"@[3] == 'l' && "apply"@[4] == 'y');
    reveal_strlit("authorize");
    assert("authorize"@.len() == 9 && "authorize"@[0] == 'a' && "authorize"@[1] == 'u' && "authorize"@[2] == 't' && "authorize"@[3] == 'h' && "authorize"@[4] == 'o' && "authorize"@[5] == 'r' && "authorize"@[6] == 'i' && "authorize"@[7] == 'z' && "authorize"@[8] == 'e');
    reveal_strlit("checkpoint");
    assert("checkpoint"@.len() == 10 && "checkpoint"@[0] == 'c' && "checkpoint"@[1] == 'h' && "checkpoint"@[2] == 'e' && "checkpoint"@[3] == 'c' && "checkpoint"@[4] == 'k' && "checkpoint"@[5] == 'p' && "checkpoint"@[6] == 'o' && "checkpoint"@[7] == 'i' && "checkpoint"@[8] == 'n' && "checkpoint"@[9] == 't');
    reveal_strlit("clone");
    assert("clone"@.len() == 5 && "clone"@[0] == 'c' && "clone"@[1] == 'l' && "clone"@[2] == 'o' && "clone"@[3] == 'n' && "clone"@[4] == 'e');
    reveal_strlit("config");
    assert("config"@.len() == 6 && "config"@[0] == 'c' && "config"@[1] == 'o' && "config"@[2] == 'n' && "config"@[3] == 'f' && "config"@[4] == 'i' && "config"@[5] == 'g');
    reveal_strlit("delete");
    assert("delete"@.len() == 6 && "delete"@[0] == 'd' && "delete"@[1] == 'e' && "delete"@[2] == 'l' && "delete"@[3] == 'e' && "delete"@[4] == 't' && "delete"@[5] == 'e');
    reveal_strlit("delete-env");
    assert("delete-env"@.len() == 10 && "delete-env"@[0] == 'd' && "delete-env"@[1] == 'e' && "delete-env"@[2] == 'l' && "delete-env"@[3] == 'e' && "delete-env"@[4] == 't' && "delete-env"@[5] == 'e' && "delete-env"@[6] == '-' && "delete-env"@[7] == 'e' && "delete-env"@[8] == 'n' && "delete-env"@[9] == 'v');
    reveal_strlit("generate-flake");
    assert("generate-flake"@.len() == 14 && "generate-flake"@[0] == 'g' && "generate-flake"@[1] == 'e' && "generate-flake"@[2] == 'n' && "generate-flake"@[3] == 'e' && "generate-flake"@[4] == 'r' && "generate-flake"@[5] == 'a' && "generate-flake"@[6] == 't' && "generate-flake"@[7] == 'e' && "generate-flake"@[8] == '-' && "generate-flake"@[9] == 'f' && "generate-flake"@[10] == 'l' && "generate-flake"@[11] == 'a' && "generate-flake"@[12] == 'k' && "generate-flake"@[13] == 'e');
    reveal_strlit("get");
    assert("get"@.len() == 3 && "get"@[0] == 'g' && "get"@[1] == 'e' && "get"@[2] == 't');
    reveal_strlit("git");
    assert("git"@.len() == 3 && "git"@[0] == 'g' && "git"@[1] == 'i' && "git"@[2] == 't');
    reveal_strlit("help");
    assert("help"@.len() == 4 && "help"@[0] == 'h' && "help"@[1] == 'e' && "help"@[2] == 'l' && "help"@[3] == 'p');
    reveal_strlit("invoke");
    assert("invoke"@.len() == 6 && "invoke"@[0] == 'i' && "invoke"@[1] == 'n' && "invoke"@[2] == 'v' && "invoke"@[3] == 'o' && "invoke"@[4] == 'k' && "invoke"@[5] == 'e');
    reveal_strlit("key");
    assert("key"@.len() == 3 && "key"@[0] == 'k' && "key"@[1] == 'e' && "key"@[2] == 'y');
    reveal_strlit("list");
    assert("list"@.len() == 4 && "list"@[0] == 'l' && "list"@[1] == 'i' && "list"@[2] == 's' && "list"@[3] == 't');
    reveal_strlit("list-env");
    assert("list-env"@.len() == 8 && "list-env"@[0] == 'l' && "list-env"@[1] == 'i' && "list-env"@[2] == 's' && "list-env"@[3] == 't' && "list-env"@[4] == '-' && "list-env"@[5] == 'e' && "list-env"@[6] == 'n' && "list-env"@[7] == 'v');
    reveal_strlit("model");
    assert("model"@.len() == 5 && "model"@[0] == 'm' && "model"@[1] == 'o' && "model"@[2] == 'd' && "model"@[3] == 'e' && "model"@[4] == 'l');
    reveal_strlit("provider");
    assert("provider"@.len() == 8 && "provider"@[0] == 'p' && "provider"@[1] == 'r' && "provider"@[2] == 'o' && "provider"@[3] == 'v' && "provider"@[4] == 'i' && "provider"@[5] == 'd' && "provider"@[6] == 'e' && "provider"@[7] == 'r');
    reveal_strlit("pull");
    assert("pull"@.len() == 4 && "pull"@[0] == 'p' && "pull"@[1] == 'u' && "pull"@[2] == 'l' && "pull"@[3] == 'l');
    reveal_strlit("revoke");
    assert("revoke"@.len() == 6 && "revoke"@[0] == 'r' && "revoke"@[1] == 'e' && "revoke"@[2] == 'v' && "revoke"@[3] == 'o' && "revoke"@[4] == 'k' && "revoke"@[5] == 'e');
    reveal_strlit("serve");
    assert("serve"@.len() == 5 && "serve"@[0] == 's' && "serve"@[1] == 'e' && "serve"@[2] == 'r' && "serve"@[3] == 'v' && "serve"@[4] == 'e');
    reveal_strlit("set-env");
    assert("set-env"@.len() == 7 && "set-env"@[0] == 's' && "set-env"@[1] == 'e' && "set-env"@[2] == 't' && "set-env"@[3] == '-' && "set-env"@[4] == 'e' && "set-env"@[5] == 'n' && "set-env"@[6] == 'v');
    reveal_strlit("skill");
    assert("skill"@.len() == 5 && "skill"@[0] == 's' && "skill"@[1] == 'k' && "skill"@[2] == 'i' && "skill"@[3] == 'l' && "skill"@[4] == 'l');
    reveal_strlit("status");
    assert("status"@.len() == 6 && "status"@[0] == 's' && "status"@[1] == 't' && "status"@[2] == 'a' && "status"@[3] == 't' && "status"@[4] == 'u' && "status"@[5] == 's');
    reveal_strlit("tool");
    assert("tool"@.len() == 4 && "tool"@[0] == 't' && "tool"@[1] == 'o' && "tool"@[2] == 'o' && "tool"@[3] == 'l');
}

/// `tool <word> <arguments>` runs the tool command of the same name, its
/// positional arguments reaching its fields in order and its optional
/// options left unset.
pub proof fn law_tool_words_name_their_commands(prog: Seq<char>, w: Seq<char>, a: Seq<Seq<char>>, r: Result<Cli, CliError>)
    requires
        forall|j: int| 0 <= j < a.len() ==> is_plain(#[trigger] a[j]),
        parse_agrees(seq![prog, "tool"@, w] + a, r),
    ensures
        (w == "list"@ && a.len() == 0) ==> (r matches Ok(c) && c.command matches Commands::Tool { command: ToolCommands::List } && c.data_dir is None),
        (w == "pull"@ && a.len() == 1) ==> (r matches Ok(c) && c.command matches Commands::Tool { command: ToolCommands::Pull { slug } } && slug@ == a[0] && c.data_dir is None),
        (w == "get"@ && a.len() == 1) ==> (r matches Ok(c) && c.command matches Commands::Tool { command: ToolCommands::Get { slug } } && slug@ == a[0] && c.data_dir is None),
        (w == "delete"@ && a.len() == 1) ==> (r matches Ok(c) && c.command matches Commands::Tool { command: ToolCommands::Delete { slug } } && slug@ == a[0] && c.data_dir is None),
        (w == "authorize"@ && a.len() == 2) ==> (r matches Ok(c) && c.command matches Commands::Tool { command: ToolCommands::Authorize { slug, agent_name } } && slug@ == a[0] && agent_name@ == a[1] && c.data_dir is None),
        (w == "revoke"@ && a.len() == 2) ==> (r matches Ok(c) && c.command matches Commands::Tool { command: ToolCommands::Revoke { slug, agent_name } } && slug@ == a[0] && agent_name@ == a[1] && c.data_dir is None),
        (w == "set-env"@ && a.len() == 3) ==> (r matches Ok(c) && c.command matches Commands::Tool { command: ToolCommands::SetEnv { slug, key, value } } && slug@ == a[0] && key@ == a[1] && value@ == a[2] && c.data_dir is None),
        (w == "list-env"@ && a.len() == 1) ==> (r matches Ok(c) && c.command matches Commands::Tool { command: ToolCommands::ListEnv { slug } } && slug@ == a[0] && c.data_dir is None),
        (w == "delete-env"@ && a.len() == 2) ==> (r matches Ok(c) && c.command matches Commands::Tool { command: ToolCommands::DeleteEnv { slug, key } } && slug@ == a[0] && key@ == a[1] && c.data_dir is None),
{
    lemma_words_tool();
    let args = seq![prog, "tool"@, w] + a;
    assert(args.subrange(3, args.len() as int) =~= a);
    assert(args[1] == "tool"@ && args[2] == w);
    assert forall|j: int| 3 <= j < args.len() implies #[trigger] args[j] == a[j - 3] by {}
    if w == "list"@ && a.len() == 0 {
        assert forall|j: int| 1 <= j < args.len() implies is_plain(#[trigger] args[j]) by { if j >= 3 { assert(args[j] == a[j - 3]); } }
        lemma_parse_group_plain(args, Top::Tool, Leaf::ToolList);
        assert(r is Ok && r->Ok_0.command.shape().0 == Leaf::ToolList);
        assert(r->Ok_0.command is Tool);
        assert(r->Ok_0.command->Tool_command is List);
    } else if w == "pull"@ && a.len() == 1 {
        assert forall|j: int| 1 <= j < args.len() implies is_plain(#[trigger] args[j]) by { if j >= 3 { assert(args[j] == a[j - 3]); } }
        lemma_parse_group_plain(args, Top::Tool, Leaf::ToolPull);
        assert(r is Ok && r->Ok_0.command.shape().0 == Leaf::ToolPull);
        assert(r->Ok_0.command is Tool);
        assert(r->Ok_0.command->Tool_command is Pull);
        assert(r->Ok_0.command.shape().1[0] == a[0]);
    } else if w == "get"@ && a.len() == 1 {
        assert forall|j: int| 1 <= j < args.len() implies is_plain(#[trigger] args[j]) by { if j >= 3 { assert(args[j] == a[j - 3]); } }
        lemma_parse_group_plain(args, Top::Tool, Leaf::ToolGet);
        assert(r is Ok && r->Ok_0.command.shape().0 == Leaf::ToolGet);
        assert(r->Ok_0.command is Tool);
        assert(r->Ok_0.command->Tool_command is Get);
        assert(r->Ok_0.command.shape().1[0] == a[0]);
    } else if w == "delete"@ && a.len() == 1 {
        assert forall|j: int| 1 <= j < args.len() implies is_plain(#[trigger] args[j]) by { if j >= 3 { assert(args[j] == a[j - 3]); } }
        lemma_parse_group_plain(args, Top::Tool, Leaf::ToolDelete);
        assert(r is Ok && r->Ok_0.command.shape().0 == Leaf::ToolDelete);
        assert(r->Ok_0.command is Tool);
        assert(r->Ok_0.command->Tool_command is Delete);
        assert(r->Ok_0.command.shape().1[0] == a[0]);
    } else if w == "authorize"@ && a.len() == 2 {
        assert forall|j: int| 1 <= j < args.len() implies is_plain(#[trigger] args[j]) by { if j >= 3 { assert(args[j] == a[j - 3]); } }
        lemma_parse_group_plain(args, Top::Tool, Leaf::ToolAuthorize);
        assert(r is Ok && r->Ok_0.command.shape().0 == Leaf::ToolAuthorize);
        assert(r->Ok_0.command is Tool);
        assert(r->Ok_0.command->Tool_command is Authorize);
        assert(r->Ok_0.command.shape().1[0] == a[0]);
        assert(r->Ok_0.command.shape().1[1] == a[1]);
    } else if w == "revoke"@ && a.len() == 2 {
        assert forall|j: int| 1 <= j < args.len() implies is_plain(#[trigger] args[j]) by { if j >= 3 { assert(args[j] == a[j - 3]); } }
        lemma_parse_group_plain(args, Top::Tool, Leaf::ToolRevoke);
        assert(r is Ok && r->Ok_0.command.shape().0 == Leaf::ToolRevoke);
        assert(r->Ok_0.command is Tool);
        assert(r->Ok_0.command->Tool_command is Revoke);
        assert(r->Ok_0.command.shape().1[0] == a[0]);
        assert(r->Ok_0.command.shape().1[1] == a[1]);
    } else if w == "set-env"@ && a.len() == 3 {
        assert forall|j: int| 1 <= j < args.len() implies is_plain(#[trigger] args[j]) by { if j >= 3 { assert(args[j] == a[j - 3]); } }
        lemma_parse_group_plain(args, Top::Tool, Leaf::ToolSetEnv);
        assert(r is Ok && r->Ok_0.command.shape().0 == Leaf::ToolSetEnv);
        assert(r->Ok_0.command is Tool);
        assert(r->Ok_0.command->Tool_command is SetEnv);
        assert(r->Ok_0.command.shape().1[0] == a[0]);
        assert(r->Ok_0.command.shape().1[1] == a[1]);
        assert(r->Ok_0.command.shape().1[2] == a[2]);
    } else if w == "list-env"@ && a.len() == 1 {
        assert forall|j: int| 1 <= j < args.len() implies is_plain(#[trigger] args[j]) by { if j >= 3 { assert(args[j] == a[j - 3]); } }
        lemma_parse_group_plain(args, Top::Tool, Leaf::ToolListEnv);
        assert(r is Ok && r->Ok_0.command.shape().0 == Leaf::ToolListEnv);
        assert(r->Ok_0.command is Tool);
        assert(r->Ok_0.command->Tool_command is ListEnv);
        assert(r->Ok_0.command.shape().1[0] == a[0]);
    } else if w == "delete-env"@ && a.len() == 2 {
        assert forall|j: int| 1 <= j < args.len() implies is_plain(#[trigger] args[j]) by { if j >= 3 { assert(args[j] == a[j - 3]); } }
        lemma_parse_group_plain(args, Top::Tool, Leaf::ToolDeleteEnv);
        assert(r is Ok && r->Ok_0.command.shape().0 == Leaf::ToolDeleteEnv);
        assert(r->Ok_0.command is Tool);
        assert(r->Ok_0.command->Tool_command is DeleteEnv);
        assert(r->Ok_0.command.shape().1[0] == a[0]);
        assert(r->Ok_0.command.shape().1[1] == a[1]);
    }
}

/// The word `key` and the words of its commands name what they say.
proof fn lemma_words_key()
    ensures
        top_of_word("key"@) == Some(Top::Key),
        is_plain("key"@) && "key"@ != "help"@,
        sub_of_word(Top::Key, "list"@) == Some(Leaf::KeyList) && is_plain("list"@) && "list"@ != "help"@,
        sub_of_word(Top::Key, "delete"@) == Some(Leaf::KeyDelete) && is_plain("delete"@) && "delete"@ != "help"@,
        sub_of_word(Top::Key, "create"@) == Some(Leaf::KeyCreate) && is_plain("create"@) && "create"@ != "help"@,
{
    reveal_strlit("agent");
    assert("agent"@.len() == 5 && "agent"@[0] == 'a' && "agent"@[1] == 'g' && "agent"@[2] == 'e' && "agent"@[3] == 'n' && "agent"@[4] == 't');
    reveal_strlit("apply");
    assert("apply"@.len() == 5 && "apply"@[0] == 'a' && "apply"@[1] == 'p' && "apply"@[2] == 'p' && "apply"@[3] == 'l' && "apply"@[4] == 'y');
    reveal_strlit("checkpoint");
    assert("checkpoint"@.len() == 10 && "checkpoint"@[0] == 'c' && "checkpoint"@[1] == 'h' && "checkpoint"@[2] == 'e' && "checkpoint"@[3] == 'c' && "checkpoint"@[4] == 'k' && "checkpoint"@[5] == 'p' && "checkpoint"@[6] == 'o' && "checkpoint"@[7] == 'i' && "checkpoint"@[8] == 'n' && "checkpoint"@[9] == 't');
    reveal_strlit("config");
    assert("config"@.len() == 6 && "config"@[0] == 'c' && "config"@[1] == 'o' && "config"@[2] == 'n' && "config"@[3] == 'f' && "config"@[4] == 'i' && "config"@[5] == 'g');
    reveal_strlit("create");
    assert("create"@.len() == 6 && "create"@[0] == 'c' && "create"@[1] == 'r' && "create"@[2] == 'e' && "create"@[3] == 'a' && "create"@[4] == 't' && "create"@[5] == 'e');
    reveal_strlit("delete");
    assert("delete"@.len() == 6 && "delete"@[0] == 'd' && "delete"@[1] == 'e' && "delete"@[2] == 'l' && "delete"@[3] == 'e' && "delete"@[4] == 't' && "delete"@[5] == 'e');
    reveal_strlit("generate-flake");
    assert("generate-flake"@.len() == 14 && "generate-flake"@[0] == 'g' && "generate-flake"@[1] == 'e' && "generate-flake"@[2] == 'n' && "generate-flake"@[3] == 'e' && "generate-flake"@[4] == 'r' && "generate-flake"@[5] == 'a' && "generate-flake"@[6] == 't' && "generate-flake"@[7] == 'e' && "generate-flake"@[8] == '-' && "generate-flake"@[9] == 'f' && "generate-flake"@[10] == 'l' && "generate-flake"@[11] == 'a' && "generate-flake"@[12] == 'k' && "generate-flake"@[13] == 'e');
    reveal_strlit("git");
    assert("git"@.len() == 3 && "git"@[0] == 'g' && "git"@[1] == 'i' && "git"@[2] == 't');
    reveal_strlit("help");
    assert("help"@.len() == 4 && "help"@[0] == 'h' && "help"@[1] == 'e' && "help"@[2] == 'l' && "help"@[3] == 'p');
    reveal_strlit("key");
    assert("key"@.len() == 3 && "key"@[0] == 'k' && "key"@[1] == 'e' && "key"@[2] == 'y');
    reveal_strlit("list");
    assert("list"@.len() == 4 && "list"@[0] == 'l' && "list"@[1] == 'i' && "list"@[2] == 's' && "list"@[3] == 't');
    reveal_strlit("model");
    assert("model"@.len() == 5 && "model"@[0] == 'm' && "model"@[1] == 'o' && "model"@[2] == 'd' && "model"@[3] == 'e' && "model"@[4] == 'l');
    reveal_strlit("provider");
    assert("provider"@.len() == 8 && "provider"@[0] == 'p' && "provider"@[1] == 'r' && "provider"@[2] == 'o' && "provider"@[3] == 'v' && "provider"@[4] == 'i' && "provider"@[5] == 'd' && "provider"@[6] == 'e' && "provider"@[7] == 'r');
    reveal_strlit("serve");
    assert("serve"@.len() == 5 && "serve"@[0] == 's' && "serve"@[1] == 'e' && "serve"@[2] == 'r' && "serve"@[3] == 'v' && "serve"@[4] == 'e');
    reveal_strlit("skill");
    assert("skill"@.len() == 5 && "skill"@[0] == 's' && "skill"@[1] == 'k' && "skill"@[2] == 'i' && "skill"@[3] == 'l' && "skill"@[4] == 'l');
    reveal_strlit("status");
    assert("status"@.len() == 6 && "status"@[0] == 's' && "status"@[1] == 't' && "status"@[2] == 'a' && "status"@[3] == 't' && "status"@[4] == 'u' && "status"@[5] == 's');
    reveal_strlit("tool");
    assert("tool"@.len() == 4 && "tool"@[0] == 't' && "tool"@[1] == 'o' && "tool"@[2] == 'o' && "tool"@[3] == 'l');
}

/// `key <word> <arguments>` runs the key command of the same name, its
/// positional arguments reaching its fields in order and its optional
/// options left unset.
pub proof fn law_key_words_name_their_commands(prog: Seq<char>, w: Seq<char>, a: Seq<Seq<char>>, r: Result<Cli, CliError>)
    requires
        forall|j: int| 0 <= j < a.len() ==> is_plain(#[trigger] a[j]),
        parse_agrees(seq![prog, "key"@, w] + a, r),
    ensures
        (w == "list"@ && a.len() == 0) ==> (r matches Ok(c) && c.command matches Commands::Key { command: KeyCommands::List } && c.data_dir is None),
        (w == "delete"@ && a.len() == 1) ==> (r matches Ok(c) && c.command matches Commands::Key { command: KeyCommands::Delete { id } } && id@ == a[0] && c.data_dir is None),
{
    lemma_words_key();
    let args = seq![prog, "key"@, w] + a;
    assert(args.subrange(3, args.len() as int) =~= a);
    assert(args[1] == "key"@ && args[2] == w);
    assert forall|j: int| 3 <= j < args.len() implies #[trigger] args[j] == a[j - 3] by {}
    if w == "list"@ && a.len() == 0 {
        assert forall|j: int| 1 <= j < args.len() implies is_plain(#[trigger] args[j]) by { if j >= 3 { assert(args[j] == a[j - 3]); } }
        lemma_parse_group_plain(args, Top::Key, Leaf::KeyList);
        assert(r is Ok && r->Ok_0.command.shape().0 == Leaf::KeyList);
        assert(r->Ok_0.command is Key);
        assert(r->Ok_0.command->Key_command is List);
    } else if w == "delete"@ && a.len() == 1 {
        assert forall|j: int| 1 <= j < args.len() implies is_plain(#[trigger] args[j]) by { if j >= 3 { assert(args[j] == a[j - 3]); } }
        lemma_parse_group_plain(args, Top::Key, Leaf::KeyDelete);
        assert(r is Ok && r->Ok_0.command.shape().0 == Leaf::KeyDelete);
        assert(r->Ok_0.command is Key);
        assert(r->Ok_0.command->Key_command is Delete);
        assert(r->Ok_0.command.shape().1[0] == a[0]);
    }
}

} // verus!

verus! {

/// `key create <name>` with `-p`/`--provider` creates the key `name` for that provider.
pub proof fn law_key_create_options(prog: Seq<char>, a0: Seq<char>, v0: Seq<char>, long: bool, r: Result<Cli, CliError>)
    requires
        is_plain(a0) && is_plain(v0),
        parse_agrees(seq![prog, "key"@, "create"@, a0, if long { "--provider"@ } else { "-p"@ }, v0], r),
    ensures
        r matches Ok(c) && c.command matches Commands::Key { command: KeyCommands::Create { name, provider } } && name@ == a0 && provider@ == v0 && c.data_dir is None,
{
    lemma_words_key();
    reveal_strlit("--provider");
    assert("--provider"@.len() == 10 && "--provider"@[0] == '-' && "--provider"@[1] == '-' && "--provider"@[2] == 'p' && "--provider"@[3] == 'r' && "--provider"@[4] == 'o' && "--provider"@[5] == 'v' && "--provider"@[6] == 'i' && "--provider"@[7] == 'd' && "--provider"@[8] == 'e' && "--provider"@[9] == 'r');
    reveal_strlit("-p");
    assert("-p"@.len() == 2 && "-p"@[0] == '-' && "-p"@[1] == 'p');
    reveal_strlit("data-dir");
    assert("data-dir"@.len() == 8 && "data-dir"@[0] == 'd' && "data-dir"@[1] == 'a' && "data-dir"@[2] == 't' && "data-dir"@[3] == 'a' && "data-dir"@[4] == '-' && "data-dir"@[5] == 'd' && "data-dir"@[6] == 'i' && "data-dir"@[7] == 'r');
    reveal_strlit("help");
    assert("help"@.len() == 4 && "help"@[0] == 'h' && "help"@[1] == 'e' && "help"@[2] == 'l' && "help"@[3] == 'p');
    reveal_strlit("provider");
    assert("provider"@.len() == 8 && "provider"@[0] == 'p' && "provider"@[1] == 'r' && "provider"@[2] == 'o' && "provider"@[3] == 'v' && "provider"@[4] == 'i' && "provider"@[5] == 'd' && "provider"@[6] == 'e' && "provider"@[7] == 'r');
    let args = seq![prog, "key"@, "create"@, a0, if long { "--provider"@ } else { "-p"@ }, v0];
    let l = Leaf::KeyCreate;
    let opts = leaf_options(l);
    assert(opts[0].long@ == "provider"@);
    assert(find_long_from(opts, "provider"@, 0) == Some(0int));
    assert(find_short_from(opts, 'p', 0) == Some(0int));
    let st0 = fresh(None, 1);
    let sp0 = ScanV { vals: st0.vals, pos: st0.pos.push(a0), dd: st0.dd, dd_here: st0.dd_here, stop: st0.stop };
    assert(step(args, 3, opts, false, false, 1, st0) == Scan::Next(4, sp0));
    let so0 = with_value(sp0, 0, v0);
    if long {
        assert("--provider"@ =~= seq!['-', '-'] + "provider"@);
        lemma_step_long_value(args, 4, opts, 1, sp0, "provider"@, 0);
    } else {
        assert("-p"@ =~= seq!['-', 'p']);
        lemma_step_short_value(args, 4, opts, 1, sp0, 'p', 0);
    }
    assert(scan(args, 6, opts, false, false, 1, so0) == Scan::Done(so0));
    assert(scan(args, 4, opts, false, false, 1, sp0) == Scan::Done(so0));
    assert(scan(args, 3, opts, false, false, 1, st0) == Scan::Done(so0));
    assert(so0.vals =~= seq![Some(v0)]);
    assert(so0.pos =~= seq![a0]);
    assert(!missing_required(opts, so0.vals));
    assert(leaf_phase(args, 3, l, None) == Ok::<_, CliError>((l, seq![a0], seq![Some(v0)], None::<Seq<char>>)));
    lemma_scan_word(args, 1, Seq::empty(), true, fresh(None, 0));
    lemma_scan_word(args, 2, Seq::empty(), false, fresh(None, 0));
    assert(parse_spec(args) == Ok::<_, CliError>((l, seq![a0], seq![Some(v0)], None::<Seq<char>>)));
    assert(r is Ok && r->Ok_0.command.shape().0 == l);
    assert(r->Ok_0.command is Key);
    assert(r->Ok_0.command->Key_command is Create);
    assert(r->Ok_0.command.shape().1[0] == a0);
    assert(r->Ok_0.command.shape().2[0] == Some(v0));
}

/// `tool invoke <slug>` with `-i`/`--input` runs that tool on that input.
pub proof fn law_tool_invoke_options(prog: Seq<char>, a0: Seq<char>, v0: Seq<char>, long: bool, r: Result<Cli, CliError>)
    requires
        is_plain(a0) && is_plain(v0),
        parse_agrees(seq![prog, "tool"@, "invoke"@, a0, if long { "--input"@ } else { "-i"@ }, v0], r),
    ensures
        r matches Ok(c) && c.command matches Commands::Tool { command: ToolCommands::Invoke { slug, input } } && slug@ == a0 && input@ == v0 && c.data_dir is None,
{
    lemma_words_tool();
    reveal_strlit("--input");
    assert("--input"@.len() == 7 && "--input"@[0] == '-' && "--input"@[1] == '-' && "--input"@[2] == 'i' && "--input"@[3] == 'n' && "--input"@[4] == 'p' && "--input"@[5] == 'u' && "--input"@[6] == 't');
    reveal_strlit("-i");
    assert("-i"@.len() == 2 && "-i"@[0] == '-' && "-i"@[1] == 'i');
    reveal_strlit("data-dir");
    assert("data-dir"@.len() == 8 && "data-dir"@[0] == 'd' && "data-dir"@[1] == 'a' && "data-dir"@[2] == 't' && "data-dir"@[3] == 'a' && "data-dir"@[4] == '-' && "data-dir"@[5] == 'd' && "data-dir"@[6] == 'i' && "data-dir"@[7] == 'r');
    reveal_strlit("help");
    assert("help"@.len() == 4 && "help"@[0] == 'h' && "help"@[1] == 'e' && "help"@[2] == 'l' && "help"@[3] == 'p');
    reveal_strlit("input");
    assert("input"@.len() == 5 && "input"@[0] == 'i' && "input"@[1] == 'n' && "input"@[2] == 'p' && "input"@[3] == 'u' && "input"@[4] == 't');
    let args = seq![prog, "tool"@, "invoke"@, a0, if long { "--input"@ } else { "-i"@ }, v0];
    let l = Leaf::ToolInvoke;
    let opts = leaf_options(l);
    assert(opts[0].long@ == "input"@);
    assert(find_long_from(opts, "input"@, 0) == Some(0int));
    assert(find_short_from(opts, 'i', 0) == Some(0int));
    let st0 = fresh(None, 1);
    let sp0 = ScanV { vals: st0.vals, pos: st0.pos.push(a0), dd: st0.dd, dd_here: st0.dd_here, stop: st0.stop };
    assert(step(args, 3, opts, false, false, 1, st0) == Scan::Next(4, sp0));
    let so0 = with_value(sp0, 0, v0);
    if long {
        assert("--input"@ =~= seq!['-', '-'] + "input"@);
        lemma_step_long_value(args, 4, opts, 1, sp0, "input"@, 0);
    } else {
        assert("-i"@ =~= seq!['-', 'i']);
        lemma_step_short_value(args, 4, opts, 1, sp0, 'i', 0);
    }
    assert(scan(args, 6, opts, false, false, 1, so0) == Scan::Done(so0));
    assert(scan(args, 4, opts, false, false, 1, sp0) == Scan::Done(so0));
    assert(scan(args, 3, opts, false, false, 1, st0) == Scan::Done(so0));
    assert(so0.vals =~= seq![Some(v0)]);
    assert(so0.pos =~= seq![a0]);
    assert(!missing_required(opts, so0.vals));
    assert(leaf_phase(args, 3, l, None) == Ok::<_, CliError>((l, seq![a0], seq![Some(v0)], None::<Seq<char>>)));
    lemma_scan_word(args, 1, Seq::empty(), true, fresh(None, 0));
    lemma_scan_word(args, 2, Seq::empty(), false, fresh(None, 0));
    assert(parse_spec(args) == Ok::<_, CliError>((l, seq![a0], seq![Some(v0)], None::<Seq<char>>)));
    assert(r is Ok && r->Ok_0.command.shape().0 == l);
    assert(r->Ok_0.command is Tool);
    assert(r->Ok_0.command->Tool_command is Invoke);
    assert(r->Ok_0.command.shape().1[0] == a0);
    assert(r->Ok_0.command.shape().2[0] == Some(v0));
}

/// `skill clone <slug>` with `-r`/`--repo` and `-a`/`--author` clones that repository as skill `slug` for that author.
pub proof fn law_skill_clone_options(prog: Seq<char>, a0: Seq<char>, v0: Seq<char>, v1: Seq<char>, long: bool, r: Result<Cli, CliError>)
    requires
        is_plain(a0) && is_plain(v0) && is_plain(v1),
        parse_agrees(seq![prog, "skill"@, "clone"@, a0, if long { "--repo"@ } else { "-r"@ }, v0, if long { "--author"@ } else { "-a"@ }, v1], r),
    ensures
        r matches Ok(c) && c.command matches Commands::Skill { command: SkillCommands::Clone { slug, repo, author } } && slug@ == a0 && repo@ == v0 && author@ == v1 && c.data_dir is None,
{
    lemma_words_skill();
    reveal_strlit("--author");
    assert("--author"@.len() == 8 && "--author"@[0] == '-' && "--author"@[1] == '-' && "--author"@[2] == 'a' && "--author"@[3] == 'u' && "--author"@[4] == 't' && "--author"@[5] == 'h' && "--author"@[6] == 'o' && "--author"@[7] == 'r');
    reveal_strlit("--repo");
    assert("--repo"@.len() == 6 && "--repo"@[0] == '-' && "--repo"@[1] == '-' && "--repo"@[2] == 'r' && "--repo"@[3] == 'e' && "--repo"@[4] == 'p' && "--repo"@[5] == 'o');
    reveal_strlit("-a");
    assert("-a"@.len() == 2 && "-a"@[0] == '-' && "-a"@[1] == 'a');
    reveal_strlit("-r");
    assert("-r"@.len() == 2 && "-r"@[0] == '-' && "-r"@[1] == 'r');
    reveal_strlit("author");
    assert("author"@.len() == 6 && "author"@[0] == 'a' && "author"@[1] == 'u' && "author"@[2] == 't' && "author"@[3] == 'h' && "author"@[4] == 'o' && "author"@[5] == 'r');
    reveal_strlit("data-dir");
    assert("data-dir"@.len() == 8 && "data-dir"@[0] == 'd' && "data-dir"@[1] == 'a' && "data-dir"@[2] == 't' && "data-dir"@[3] == 'a' && "data-dir"@[4] == '-' && "data-dir"@[5] == 'd' && "data-dir"@[6] == 'i' && "data-dir"@[7] == 'r');
    reveal_strlit("help");
    assert("help"@.len() == 4 && "help"@[0] == 'h' && "help"@[1] == 'e' && "help"@[2] == 'l' && "help"@[3] == 'p');
    reveal_strlit("repo");
    assert("repo"@.len() == 4 && "repo"@[0] == 'r' && "repo"@[1] == 'e' && "repo"@[2] == 'p' && "repo"@[3] == 'o');
    let args = seq![prog, "skill"@, "clone"@, a0, if long { "--repo"@ } else { "-r"@ }, v0, if long { "--author"@ } else { "-a"@ }, v1];
    let l = Leaf::SkillClone;
    let opts = leaf_options(l);
    assert(opts[0].long@ == "repo"@);
    assert(opts[1].long@ == "author"@);
    assert(find_long_from(opts, "repo"@, 0) == Some(0int));
    assert(find_short_from(opts, 'r', 0) == Some(0int));
    assert(find_long_from(opts, "author"@, 1) == Some(1int));
    assert(find_short_from(opts, 'a', 1) == Some(1int));
    assert(find_long_from(opts, "author"@, 0) == Some(1int));
    assert(find_short_from(opts, 'a', 0) == Some(1int));
    let st0 = fresh(None, 2);
    let sp0 = ScanV { vals: st0.vals, pos: st0.pos.push(a0), dd: st0.dd, dd_here: st0.dd_here, stop: st0.stop };
    assert(step(args, 3, opts, false, false, 1, st0) == Scan::Next(4, sp0));
    let so0 = with_value(sp0, 0, v0);
    if long {
        assert("--repo"@ =~= seq!['-', '-'] + "repo"@);
        lemma_step_long_value(args, 4, opts, 1, sp0, "repo"@, 0);
    } else {
        assert("-r"@ =~= seq!['-', 'r']);
        lemma_step_short_value(args, 4, opts, 1, sp0, 'r', 0);
    }
    let so1 = with_value(so0, 1, v1);
    if long {
        assert("--author"@ =~= seq!['-', '-'] + "author"@);
        lemma_step_long_value(args, 6, opts, 1, so0, "author"@, 1);
    } else {
        assert("-a"@ =~= seq!['-', 'a']);
        lemma_step_short_value(args, 6, opts, 1, so0, 'a', 1);
    }
    assert(scan(args, 8, opts, false, false, 1, so1) == Scan::Done(so1));
    assert(scan(args, 6, opts, false, false, 1, so0) == Scan::Done(so1));
    assert(scan(args, 4, opts, false, false, 1, sp0) == Scan::Done(so1));
    assert(scan(args, 3, opts, false, false, 1, st0) == Scan::Done(so1));
    assert(so1.vals =~= seq![Some(v0), Some(v1)]);
    assert(so1.pos =~= seq![a0]);
    assert(!missing_required(opts, so1.vals));
    assert(leaf_phase(args, 3, l, None) == Ok::<_, CliError>((l, seq![a0], seq![Some(v0), Some(v1)], None::<Seq<char>>)));
    lemma_scan_word(args, 1, Seq::empty(), true, fresh(None, 0));
    lemma_scan_word(args, 2, Seq::empty(), false, fresh(None, 0));
    assert(parse_spec(args) == Ok::<_, CliError>((l, seq![a0], seq![Some(v0), Some(v1)], None::<Seq<char>>)));
    assert(r is Ok && r->Ok_0.command.shape().0 == l);
    assert(r->Ok_0.command is Skill);
    assert(r->Ok_0.command->Skill_command is Clone);
    assert(r->Ok_0.command.shape().1[0] == a0);
    assert(r->Ok_0.command.shape().2[0] == Some(v0));
    assert(r->Ok_0.command.shape().2[1] == Some(v1));
}

/// `tool clone <slug>` with `-r`/`--repo` and `-a`/`--author` clones that repository as tool `slug` for that author.
pub proof fn law_tool_clone_options(prog: Seq<char>, a0: Seq<char>, v0: Seq<char>, v1: Seq<char>, long: bool, r: Result<Cli, CliError>)
    requires
        is_plain(a0) && is_plain(v0) && is_plain(v1),
        parse_agrees(seq![prog, "tool"@, "clone"@, a0, if long { "--repo"@ } else { "-r"@ }, v0, if long { "--author"@ } else { "-a"@ }, v1], r),
    ensures
        r matches Ok(c) && c.command matches Commands::Tool { command: ToolCommands::Clone { slug, repo, author } } && slug@ == a0 && repo@ == v0 && author@ == v1 && c.data_dir is None,
{
    lemma_words_tool();
    reveal_strlit("--author");
    assert("--author"@.len() == 8 && "--author"@[0] == '-' && "--author"@[1] == '-' && "--author"@[2] == 'a' && "--author"@[3] == 'u' && "--author"@[4] == 't' && "--author"@[5] == 'h' && "--author"@[6] == 'o' && "--author"@[7] == 'r');
    reveal_strlit("--repo");
    assert("--repo"@.len() == 6 && "--repo"@[0] == '-' && "--repo"@[1] == '-' && "--repo"@[2] == 'r' && "--repo"@[3] == 'e' && "--repo"@[4] == 'p' && "--repo"@[5] == 'o');
    reveal_strlit("-a");
    assert("-a"@.len() == 2 && "-a"@[0] == '-' && "-a"@[1] == 'a');
    reveal_strlit("-r");
    assert("-r"@.len() == 2 && "-r"@[0] == '-' && "-r"@[1] == 'r');
    reveal_strlit("author");
    assert("author"@.len() == 6 && "author"@[0] == 'a' && "author"@[1] == 'u' && "author"@[2] == 't' && "author"@[3] == 'h' && "author"@[4] == 'o' && "author"@[5] == 'r');
    reveal_strlit("data-dir");
    assert("data-dir"@.len() == 8 && "data-dir"@[0] == 'd' && "data-dir"@[1] == 'a' && "data-dir"@[2] == 't' && "data-dir"@[3] == 'a' && "data-dir"@[4] == '-' && "data-dir"@[5] == 'd' && "data-dir"@[6] == 'i' && "data-dir"@[7] == 'r');
    reveal_strlit("help");
    assert("help"@.len() == 4 && "help"@[0] == 'h' && "help"@[1] == 'e' && "help"@[2] == 'l' && "help"@[3] == 'p');
    reveal_strlit("repo");
    assert("repo"@.len() == 4 && "repo"@[0] == 'r' && "repo"@[1] == 'e' && "repo"@[2] == 'p' && "repo"@[3] == 'o');
    let args = seq![prog, "tool"@, "clone"@, a0, if long { "--repo"@ } else { "-r"@ }, v0, if long { "--author"@ } else { "-a"@ }, v1];
    let l = Leaf::ToolClone;
    let opts = leaf_options(l);
    assert(opts[0].long@ == "repo"@);
    assert(opts[1].long@ == "author"@);
    assert(find_long_from(opts, "repo"@, 0) == Some(0int));
    assert(find_short_from(opts, 'r', 0) == Some(0int));
    assert(find_long_from(opts, "author"@, 1) == Some(1int));
    assert(find_short_from(opts, 'a', 1) == Some(1int));
    assert(find_long_from(opts, "author"@, 0) == Some(1int));
    assert(find_short_from(opts, 'a', 0) == Some(1int));
    let st0 = fresh(None, 2);
    let sp0 = ScanV { vals: st0.vals, pos: st0.pos.push(a0), dd: st0.dd, dd_here: st0.dd_here, stop: st0.stop };
    assert(step(args, 3, opts, false, false, 1, st0) == Scan::Next(4, sp0));
    let so0 = with_value(sp0, 0, v0);
    if long {
        assert("--repo"@ =~= seq!['-', '-'] + "repo"@);
        lemma_step_long_value(args, 4, opts, 1, sp0, "repo"@, 0);
    } else {
        assert("-r"@ =~= seq!['-', 'r']);
        lemma_step_short_value(args, 4, opts, 1, sp0, 'r', 0);
    }
    let so1 = with_value(so0, 1, v1);
    if long {
        assert("--author"@ =~= seq!['-', '-'] + "author"@);
        lemma_step_long_value(args, 6, opts, 1, so0, "author"@, 1);
    } else {
        assert("-a"@ =~= seq!['-', 'a']);
        lemma_step_short_value(args, 6, opts, 1, so0, 'a', 1);
    }
    assert(scan(args, 8, opts, false, false, 1, so1) == Scan::Done(so1));
    assert(scan(args, 6, opts, false, false, 1, so0) == Scan::Done(so1));
    assert(scan(args, 4, opts, false, false, 1, sp0) == Scan::Done(so1));
    assert(scan(args, 3, opts, false, false, 1, st0) == Scan::Done(so1));
    assert(so1.vals =~= seq![Some(v0), Some(v1)]);
    assert(so1.pos =~= seq![a0]);
    assert(!missing_required(opts, so1.vals));
    assert(leaf_phase(args, 3, l, None) == Ok::<_, CliError>((l, seq![a0], seq![Some(v0), Some(v1)], None::<Seq<char>>)));
    lemma_scan_word(args, 1, Seq::empty(), true, fresh(None, 0));
    lemma_scan_word(args, 2, Seq::empty(), false, fresh(None, 0));
    assert(parse_spec(args) == Ok::<_, CliError>((l, seq![a0], seq![Some(v0), Some(v1)], None::<Seq<char>>)));
    assert(r is Ok && r->Ok_0.command.shape().0 == l);
    assert(r->Ok_0.command is Tool);
    assert(r->Ok_0.command->Tool_command is Clone);
    assert(r->Ok_0.command.shape().1[0] == a0);
    assert(r->Ok_0.command.shape().2[0] == Some(v0));
    assert(r->Ok_0.command.shape().2[1] == Some(v1));
}

/// `agent create <name>` with `-f`/`--forgejo-username` creates agent `name` bound to that Forgejo user.
pub proof fn law_agent_create_options(prog: Seq<char>, a0: Seq<char>, v0: Seq<char>, long: bool, r: Result<Cli, CliError>)
    requires
        is_plain(a0) && is_plain(v0),
        parse_agrees(seq![prog, "agent"@, "create"@, a0, if long { "--forgejo-username"@ } else { "-f"@ }, v0], r),
    ensures
        r matches Ok(c) && c.command matches Commands::Agent { command: AgentCommands::Create { name, forgejo_username } } && name@ == a0 && forgejo_username is Some && forgejo_username->0@ == v0 && c.data_dir is None,
{
    lemma_words_agent();
    reveal_strlit("--forgejo-username");
    assert("--forgejo-username"@.len() == 18 && "--forgejo-username"@[0] == '-' && "--forgejo-username"@[1] == '-' && "--forgejo-username"@[2] == 'f' && "--forgejo-username"@[3] == 'o' && "--forgejo-username"@[4] == 'r' && "--forgejo-username"@[5] == 'g' && "--forgejo-username"@[6] == 'e' && "--forgejo-username"@[7] == 'j' && "--forgejo-username"@[8] == 'o' && "--forgejo-username"@[9] == '-' && "--forgejo-username"@[10] == 'u' && "--forgejo-username"@[11] == 's' && "--forgejo-username"@[12] == 'e' && "--forgejo-username"@[13] == 'r' && "--forgejo-username"@[14] == 'n' && "--forgejo-username"@[15] == 'a' && "--forgejo-username"@[16] == 'm' && "--forgejo-username"@[17] == 'e');
    reveal_strlit("-f");
    assert("-f"@.len() == 2 && "-f"@[0] == '-' && "-f"@[1] == 'f');
    reveal_strlit("data-dir");
    assert("data-dir"@.len() == 8 && "data-dir"@[0] == 'd' && "data-dir"@[1] == 'a' && "data-dir"@[2] == 't' && "data-dir"@[3] == 'a' && "data-dir"@[4] == '-' && "data-dir"@[5] == 'd' && "data-dir"@[6] == 'i' && "data-dir"@[7] == 'r');
    reveal_strlit("forgejo-username");
    assert("forgejo-username"@.len() == 16 && "forgejo-username"@[0] == 'f' && "forgejo-username"@[1] == 'o' && "forgejo-username"@[2] == 'r' && "forgejo-username"@[3] == 'g' && "forgejo-username"@[4] == 'e' && "forgejo-username"@[5] == 'j' && "forgejo-username"@[6] == 'o' && "forgejo-username"@[7] == '-' && "forgejo-username"@[8] == 'u' && "forgejo-username"@[9] == 's' && "forgejo-username"@[10] == 'e' && "forgejo-username"@[11] == 'r' && "forgejo-username"@[12] == 'n' && "forgejo-username"@[13] == 'a' && "forgejo-username"@[14] == 'm' && "forgejo-username"@[15] == 'e');
    reveal_strlit("help");
    assert("help"@.len() == 4 && "help"@[0] == 'h' && "help"@[1] == 'e' && "help"@[2] == 'l' && "help"@[3] == 'p');
    let args = seq![prog, "agent"@, "create"@, a0, if long { "--forgejo-username"@ } else { "-f"@ }, v0];
    let l = Leaf::AgentCreate;
    let opts = leaf_options(l);
    assert(opts[0].long@ == "forgejo-username"@);
    assert(find_long_from(opts, "forgejo-username"@, 0) == Some(0int));
    assert(find_short_from(opts, 'f', 0) == Some(0int));
    let st0 = fresh(None, 1);
    let sp0 = ScanV { vals: st0.vals, pos: st0.pos.push(a0), dd: st0.dd, dd_here: st0.dd_here, stop: st0.stop };
    assert(step(args, 3, opts, false, false, 1, st0) == Scan::Next(4, sp0));
    let so0 = with_value(sp0, 0, v0);
    if long {
        assert("--forgejo-username"@ =~= seq!['-', '-'] + "forgejo-username"@);
        lemma_step_long_value(args, 4, opts, 1, sp0, "forgejo-username"@, 0);
    } else {
        assert("-f"@ =~= seq!['-', 'f']);
        lemma_step_short_value(args, 4, opts, 1, sp0, 'f', 0);
    }
    assert(scan(args, 6, opts, false, false, 1, so0) == Scan::Done(so0));
    assert(scan(args, 4, opts, false, false, 1, sp0) == Scan::Done(so0));
    assert(scan(args, 3, opts, false, false, 1, st0) == Scan::Done(so0));
    assert(so0.vals =~= seq![Some(v0)]);
    assert(so0.pos =~= seq![a0]);
    assert(!missing_required(opts, so0.vals));
    assert(leaf_phase(args, 3, l, None) == Ok::<_, CliError>((l, seq![a0], seq![Some(v0)], None::<Seq<char>>)));
    lemma_scan_word(args, 1, Seq::empty(), true, fresh(None, 0));
    lemma_scan_word(args, 2, Seq::empty(), false, fresh(None, 0));
    assert(parse_spec(args) == Ok::<_, CliError>((l, seq![a0], seq![Some(v0)], None::<Seq<char>>)));
    assert(r is Ok && r->Ok_0.command.shape().0 == l);
    assert(r->Ok_0.command is Agent);
    assert(r->Ok_0.command->Agent_command is Create);
    assert(r->Ok_0.command.shape().1[0] == a0);
    assert(r->Ok_0.command.shape().2[0] == Some(v0));
}

/// `agent checkpoint <name> --desc <text>` checkpoints agent `name` with that description.
pub proof fn law_agent_checkpoint_options(prog: Seq<char>, a0: Seq<char>, v0: Seq<char>, r: Result<Cli, CliError>)
    requires
        is_plain(a0) && is_plain(v0),
        parse_agrees(seq![prog, "agent"@, "checkpoint"@, a0, "--desc"@, v0], r),
    ensures
        r matches Ok(c) && c.command matches Commands::Agent { command: AgentCommands::Checkpoint { name, desc } } && name@ == a0 && desc is Some && desc->0@ == v0 && c.data_dir is None,
{
    lemma_words_agent();
    reveal_strlit("--desc");
    assert("--desc"@.len() == 6 && "--desc"@[0] == '-' && "--desc"@[1] == '-' && "--desc"@[2] == 'd' && "--desc"@[3] == 'e' && "--desc"@[4] == 's' && "--desc"@[5] == 'c');
    reveal_strlit("data-dir");
    assert("data-dir"@.len() == 8 && "data-dir"@[0] == 'd' && "data-dir"@[1] == 'a' && "data-dir"@[2] == 't' && "data-dir"@[3] == 'a' && "data-dir"@[4] == '-' && "data-dir"@[5] == 'd' && "data-dir"@[6] == 'i' && "data-dir"@[7] == 'r');
    reveal_strlit("desc");
    assert("desc"@.len() == 4 && "desc"@[0] == 'd' && "desc"@[1] == 'e' && "desc"@[2] == 's' && "desc"@[3] == 'c');
    reveal_strlit("help");
    assert("help"@.len() == 4 && "help"@[0] == 'h' && "help"@[1] == 'e' && "help"@[2] == 'l' && "help"@[3] == 'p');
    let args = seq![prog, "agent"@, "checkpoint"@, a0, "--desc"@, v0];
    let l = Leaf::AgentCheckpoint;
    let opts = leaf_options(l);
    assert(opts[0].long@ == "desc"@);
    assert(find_long_from(opts, "desc"@, 0) == Some(0int));
    let st0 = fresh(None, 1);
    let sp0 = ScanV { vals: st0.vals, pos: st0.pos.push(a0), dd: st0.dd, dd_here: st0.dd_here, stop: st0.stop };
    assert(step(args, 3, opts, false, false, 1, st0) == Scan::Next(4, sp0));
    let so0 = with_value(sp0, 0, v0);
    assert("--desc"@ =~= seq!['-', '-'] + "desc"@);
    lemma_step_long_value(args, 4, opts, 1, sp0, "desc"@, 0);
    assert(scan(args, 6, opts, false, false, 1, so0) == Scan::Done(so0));
    assert(scan(args, 4, opts, false, false, 1, sp0) == Scan::Done(so0));
    assert(scan(args, 3, opts, false, false, 1, st0) == Scan::Done(so0));
    assert(so0.vals =~= seq![Some(v0)]);
    assert(so0.pos =~= seq![a0]);
    assert(!missing_required(opts, so0.vals));
    assert(leaf_phase(args, 3, l, None) == Ok::<_, CliError>((l, seq![a0], seq![Some(v0)], None::<Seq<char>>)));
    lemma_scan_word(args, 1, Seq::empty(), true, fresh(None, 0));
    lemma_scan_word(args, 2, Seq::empty(), false, fresh(None, 0));
    assert(parse_spec(args) == Ok::<_, CliError>((l, seq![a0], seq![Some(v0)], None::<Seq<char>>)));
    assert(r is Ok && r->Ok_0.command.shape().0 == l);
    assert(r->Ok_0.command is Agent);
    assert(r->Ok_0.command->Agent_command is Checkpoint);
    assert(r->Ok_0.command.shape().1[0] == a0);
    assert(r->Ok_0.command.shape().2[0] == Some(v0));
}

/// `checkpoint list` with `-a`/`--agent` lists the checkpoints of that agent.
pub proof fn law_checkpoint_list_options(prog: Seq<char>, v0: Seq<char>, long: bool, r: Result<Cli, CliError>)
    requires
        is_plain(v0),
        parse_agrees(seq![prog, "checkpoint"@, "list"@, if long { "--agent"@ } else { "-a"@ }, v0], r),
    ensures
        r matches Ok(c) && c.command matches Commands::Checkpoint { command: CheckpointCommands::List { agent } } && agent is Some && agent->0@ == v0 && c.data_dir is None,
{
    lemma_words_checkpoint();
    reveal_strlit("--agent");
    assert("--agent"@.len() == 7 && "--agent"@[0] == '-' && "--agent"@[1] == '-' && "--agent"@[2] == 'a' && "--agent"@[3] == 'g' && "--agent"@[4] == 'e' && "--agent"@[5] == 'n' && "--agent"@[6] == 't');
    reveal_strlit("-a");
    assert("-a"@.len() == 2 && "-a"@[0] == '-' && "-a"@[1] == 'a');
    reveal_strlit("agent");
    assert("agent"@.len() == 5 && "agent"@[0] == 'a' && "agent"@[1] == 'g' && "agent"@[2] == 'e' && "agent"@[3] == 'n' && "agent"@[4] == 't');
    reveal_strlit("data-dir");
    assert("data-dir"@.len() == 8 && "data-dir"@[0] == 'd' && "data-dir"@[1] == 'a' && "data-dir"@[2] == 't' && "data-dir"@[3] == 'a' && "data-dir"@[4] == '-' && "data-dir"@[5] == 'd' && "data-dir"@[6] == 'i' && "data-dir"@[7] == 'r');
    reveal_strlit("help");
    assert("help"@.len() == 4 && "help"@[0] == 'h' && "help"@[1] == 'e' && "help"@[2] == 'l' && "help"@[3] == 'p');
    let args = seq![prog, "checkpoint"@, "list"@, if long { "--agent"@ } else { "-a"@ }, v0];
    let l = Leaf::CheckpointList;
    let opts = leaf_options(l);
    assert(opts[0].long@ == "agent"@);
    assert(find_long_from(opts, "agent"@, 0) == Some(0int));
    assert(find_short_from(opts, 'a', 0) == Some(0int));
    let st0 = fresh(None, 1);
    let so0 = with_value(st0, 0, v0);
    if long {
        assert("--agent"@ =~= seq!['-', '-'] + "agent"@);
        lemma_step_long_value(args, 3, opts, 0, st0, "agent"@, 0);
    } else {
        assert("-a"@ =~= seq!['-', 'a']);
        lemma_step_short_value(args, 3, opts, 0, st0, 'a', 0);
    }
    assert(scan(args, 5, opts, false, false, 0, so0) == Scan::Done(so0));
    assert(scan(args, 3, opts, false, false, 0, st0) == Scan::Done(so0));
    assert(so0.vals =~= seq![Some(v0)]);
    assert(so0.pos =~= Seq::<Seq<char>>::empty());
    assert(!missing_required(opts, so0.vals));
    assert(leaf_phase(args, 3, l, None) == Ok::<_, CliError>((l, Seq::<Seq<char>>::empty(), seq![Some(v0)], None::<Seq<char>>)));
    lemma_scan_word(args, 1, Seq::empty(), true, fresh(None, 0));
    lemma_scan_word(args, 2, Seq::empty(), false, fresh(None, 0));
    assert(parse_spec(args) == Ok::<_, CliError>((l, Seq::<Seq<char>>::empty(), seq![Some(v0)], None::<Seq<char>>)));
    assert(r is Ok && r->Ok_0.command.shape().0 == l);
    assert(r->Ok_0.command is Checkpoint);
    assert(r->Ok_0.command->Checkpoint_command is List);
    assert(r->Ok_0.command.shape().2[0] == Some(v0));
}

/// `config sync --delete` syncs with deletion.
pub proof fn law_config_sync_options(prog: Seq<char>, r: Result<Cli, CliError>)
    requires
        parse_agrees(seq![prog, "config"@, "sync"@, "--delete"@], r),
    ensures
        r matches Ok(c) && c.command matches Commands::Config { command: ConfigCommands::Sync { delete } } && delete && c.data_dir is None,
{
    lemma_words_config();
    reveal_strlit("--delete");
    assert("--delete"@.len() == 8 && "--delete"@[0] == '-' && "--delete"@[1] == '-' && "--delete"@[2] == 'd' && "--delete"@[3] == 'e' && "--delete"@[4] == 'l' && "--delete"@[5] == 'e' && "--delete"@[6] == 't' && "--delete"@[7] == 'e');
    reveal_strlit("data-dir");
    assert("data-dir"@.len() == 8 && "data-dir"@[0] == 'd' && "data-dir"@[1] == 'a' && "data-dir"@[2] == 't' && "data-dir"@[3] == 'a' && "data-dir"@[4] == '-' && "data-dir"@[5] == 'd' && "data-dir"@[6] == 'i' && "data-dir"@[7] == 'r');
    reveal_strlit("delete");
    assert("delete"@.len() == 6 && "delete"@[0] == 'd' && "delete"@[1] == 'e' && "delete"@[2] == 'l' && "delete"@[3] == 'e' && "delete"@[4] == 't' && "delete"@[5] == 'e');
    reveal_strlit("help");
    assert("help"@.len() == 4 && "help"@[0] == 'h' && "help"@[1] == 'e' && "help"@[2] == 'l' && "help"@[3] == 'p');
    let args = seq![prog, "config"@, "sync"@, "--delete"@];
    let l = Leaf::ConfigSync;
    let opts = leaf_options(l);
    assert(opts[0].long@ == "delete"@);
    assert(find_long_from(opts, "delete"@, 0) == Some(0int));
    let st0 = fresh(None, 1);
    let so0 = with_value(st0, 0, Seq::empty());
    assert("--delete"@ =~= seq!['-', '-'] + "delete"@);
    lemma_step_long_flag(args, 3, opts, 0, st0, "delete"@, 0);
    assert(scan(args, 4, opts, false, false, 0, so0) == Scan::Done(so0));
    assert(scan(args, 3, opts, false, false, 0, st0) == Scan::Done(so0));
    assert(so0.vals =~= seq![Some(Seq::<char>::empty())]);
    assert(so0.pos =~= Seq::<Seq<char>>::empty());
    assert(!missing_required(opts, so0.vals));
    assert(leaf_phase(args, 3, l, None) == Ok::<_, CliError>((l, Seq::<Seq<char>>::empty(), seq![Some(Seq::<char>::empty())], None::<Seq<char>>)));
    lemma_scan_word(args, 1, Seq::empty(), true, fresh(None, 0));
    lemma_scan_word(args, 2, Seq::empty(), false, fresh(None, 0));
    assert(parse_spec(args) == Ok::<_, CliError>((l, Seq::<Seq<char>>::empty(), seq![Some(Seq::<char>::empty())], None::<Seq<char>>)));
    assert(r is Ok && r->Ok_0.command.shape().0 == l);
    assert(r->Ok_0.command is Config);
    assert(r->Ok_0.command->Config_command is Sync);
    assert(r->Ok_0.command.shape().2[0] == Some(Seq::<char>::empty()));
}

/// `apply` with `-t`/`--template` applies from that template directory.
pub proof fn law_apply_options(prog: Seq<char>, v0: Seq<char>, long: bool, r: Result<Cli, CliError>)
    requires
        is_plain(v0) && v0.len() > 0,
        parse_agrees(seq![prog, "apply"@, if long { "--template"@ } else { "-t"@ }, v0], r),
    ensures
        r matches Ok(c) && c.command matches Commands::Apply { template } && template is Some && template->0@ == v0 && c.data_dir is None,
{
    lemma_words();
    lemma_word_meanings();
    reveal_strlit("--template");
    assert("--template"@.len() == 10 && "--template"@[0] == '-' && "--template"@[1] == '-' && "--template"@[2] == 't' && "--template"@[3] == 'e' && "--template"@[4] == 'm' && "--template"@[5] == 'p' && "--template"@[6] == 'l' && "--template"@[7] == 'a' && "--template"@[8] == 't' && "--template"@[9] == 'e');
    reveal_strlit("-t");
    assert("-t"@.len() == 2 && "-t"@[0] == '-' && "-t"@[1] == 't');
    reveal_strlit("data-dir");
    assert("data-dir"@.len() == 8 && "data-dir"@[0] == 'd' && "data-dir"@[1] == 'a' && "data-dir"@[2] == 't' && "data-dir"@[3] == 'a' && "data-dir"@[4] == '-' && "data-dir"@[5] == 'd' && "data-dir"@[6] == 'i' && "data-dir"@[7] == 'r');
    reveal_strlit("help");
    assert("help"@.len() == 4 && "help"@[0] == 'h' && "help"@[1] == 'e' && "help"@[2] == 'l' && "help"@[3] == 'p');
    reveal_strlit("template");
    assert("template"@.len() == 8 && "template"@[0] == 't' && "template"@[1] == 'e' && "template"@[2] == 'm' && "template"@[3] == 'p' && "template"@[4] == 'l' && "template"@[5] == 'a' && "template"@[6] == 't' && "template"@[7] == 'e');
    let args = seq![prog, "apply"@, if long { "--template"@ } else { "-t"@ }, v0];
    let l = Leaf::Apply;
    let opts = leaf_options(l);
    assert(opts[0].long@ == "template"@);
    assert(find_long_from(opts, "template"@, 0) == Some(0int));
    assert(find_short_from(opts, 't', 0) == Some(0int));
    let st0 = fresh(None, 1);
    let so0 = with_value(st0, 0, v0);
    if long {
        assert("--template"@ =~= seq!['-', '-'] + "template"@);
        lemma_step_long_value(args, 2, opts, 0, st0, "template"@, 0);
    } else {
        assert("-t"@ =~= seq!['-', 't']);
        lemma_step_short_value(args, 2, opts, 0, st0, 't', 0);
    }
    assert(scan(args, 4, opts, false, false, 0, so0) == Scan::Done(so0));
    assert(scan(args, 2, opts, false, false, 0, st0) == Scan::Done(so0));
    assert(so0.vals =~= seq![Some(v0)]);
    assert(so0.pos =~= Seq::<Seq<char>>::empty());
    assert(!missing_required(opts, so0.vals));
    assert(leaf_phase(args, 2, l, None) == Ok::<_, CliError>((l, Seq::<Seq<char>>::empty(), seq![Some(v0)], None::<Seq<char>>)));
    lemma_scan_word(args, 1, Seq::empty(), true, fresh(None, 0));
    assert(parse_spec(args) == Ok::<_, CliError>((l, Seq::<Seq<char>>::empty(), seq![Some(v0)], None::<Seq<char>>)));
    assert(r is Ok && r->Ok_0.command.shape().0 == l);
    assert(r->Ok_0.command is Apply);
    assert(r->Ok_0.command.shape().2[0] == Some(v0));
}

/// `generate-flake` with `-o`/`--output`, `-t`/`--template` and `--force` writes to that output from that template, overwriting.
pub proof fn law_generate_flake_options(prog: Seq<char>, v0: Seq<char>, v1: Seq<char>, long: bool, r: Result<Cli, CliError>)
    requires
        is_plain(v0) && is_plain(v1) && v0.len() > 0 && v1.len() > 0,
        parse_agrees(seq![prog, "generate-flake"@, if long { "--output"@ } else { "-o"@ }, v0, if long { "--template"@ } else { "-t"@ }, v1, "--force"@], r),
    ensures
        r matches Ok(c) && c.command matches Commands::GenerateFlake { output, template, force } && output is Some && output->0@ == v0 && template is Some && template->0@ == v1 && force && c.data_dir is None,
{
    lemma_words();
    lemma_word_meanings();
    reveal_strlit("--force");
    assert("--force"@.len() == 7 && "--force"@[0] == '-' && "--force"@[1] == '-' && "--force"@[2] == 'f' && "--force"@[3] == 'o' && "--force"@[4] == 'r' && "--force"@[5] == 'c' && "--force"@[6] == 'e');
    reveal_strlit("--output");
    assert("--output"@.len() == 8 && "--output"@[0] == '-' && "--output"@[1] == '-' && "--output"@[2] == 'o' && "--output"@[3] == 'u' && "--output"@[4] == 't' && "--output"@[5] == 'p' && "--output"@[6] == 'u' && "--output"@[7] == 't');
    reveal_strlit("--template");
    assert("--template"@.len() == 10 && "--template"@[0] == '-' && "--template"@[1] == '-' && "--template"@[2] == 't' && "--template"@[3] == 'e' && "--template"@[4] == 'm' && "--template"@[5] == 'p' && "--template"@[6] == 'l' && "--template"@[7] == 'a' && "--template"@[8] == 't' && "--template"@[9] == 'e');
    reveal_strlit("-o");
    assert("-o"@.len() == 2 && "-o"@[0] == '-' && "-o"@[1] == 'o');
    reveal_strlit("-t");
    assert("-t"@.len() == 2 && "-t"@[0] == '-' && "-t"@[1] == 't');
    reveal_strlit("data-dir");
    assert("data-dir"@.len() == 8 && "data-dir"@[0] == 'd' && "data-dir"@[1] == 'a' && "data-dir"@[2] == 't' && "data-dir"@[3] == 'a' && "data-dir"@[4] == '-' && "data-dir"@[5] == 'd' && "data-dir"@[6] == 'i' && "data-dir"@[7] == 'r');
    reveal_strlit("force");
    assert("force"@.len() == 5 && "force"@[0] == 'f' && "force"@[1] == 'o' && "force"@[2] == 'r' && "force"@[3] == 'c' && "force"@[4] == 'e');
    reveal_strlit("help");
    assert("help"@.len() == 4 && "help"@[0] == 'h' && "help"@[1] == 'e' && "help"@[2] == 'l' && "help"@[3] == 'p');
    reveal_strlit("output");
    assert("output"@.len() == 6 && "output"@[0] == 'o' && "output"@[1] == 'u' && "output"@[2] == 't' && "output"@[3] == 'p' && "output"@[4] == 'u' && "output"@[5] == 't');
    reveal_strlit("template");
    assert("template"@.len() == 8 && "template"@[0] == 't' && "template"@[1] == 'e' && "template"@[2] == 'm' && "template"@[3] == 'p' && "template"@[4] == 'l' && "template"@[5] == 'a' && "template"@[6] == 't' && "template"@[7] == 'e');
    let args = seq![prog, "generate-flake"@, if long { "--output"@ } else { "-o"@ }, v0, if long { "--template"@ } else { "-t"@ }, v1, "--force"@];
    let l = Leaf::GenerateFlake;
    let opts = leaf_options(l);
    assert(opts[0].long@ == "output"@);
    assert(opts[1].long@ == "template"@);
    assert(opts[2].long@ == "force"@);
    assert(find_long_from(opts, "output"@, 0) == Some(0int));
    assert(find_short_from(opts, 'o', 0) == Some(0int));
    assert(find_long_from(opts, "template"@, 1) == Some(1int));
    assert(find_short_from(opts, 't', 1) == Some(1int));
    assert(find_long_from(opts, "template"@, 0) == Some(1int));
    assert(find_short_from(opts, 't', 0) == Some(1int));
    assert(find_long_from(opts, "force"@, 2) == Some(2int));
    assert(find_long_from(opts, "force"@, 1) == Some(2int));
    assert(find_long_from(opts, "force"@, 0) == Some(2int));
    let st0 = fresh(None, 3);
    let so0 = with_value(st0, 0, v0);
    if long {
        assert("--output"@ =~= seq!['-', '-'] + "output"@);
        lemma_step_long_value(args, 2, opts, 0, st0, "output"@, 0);
    } else {
        assert("-o"@ =~= seq!['-', 'o']);
        lemma_step_short_value(args, 2, opts, 0, st0, 'o', 0);
    }
    let so1 = with_value(so0, 1, v1);
    if long {
        assert("--template"@ =~= seq!['-', '-'] + "template"@);
        lemma_step_long_value(args, 4, opts, 0, so0, "template"@, 1);
    } else {
        assert("-t"@ =~= seq!['-', 't']);
        lemma_step_short_value(args, 4, opts, 0, so0, 't', 1);
    }
    let so2 = with_value(so1, 2, Seq::empty());
    assert("--force"@ =~= seq!['-', '-'] + "force"@);
    lemma_step_long_flag(args, 6, opts, 0, so1, "force"@, 2);
    assert(scan(args, 7, opts, false, false, 0, so2) == Scan::Done(so2));
    assert(scan(args, 6, opts, false, false, 0, so1) == Scan::Done(so2));
    assert(scan(args, 4, opts, false, false, 0, so0) == Scan::Done(so2));
    assert(scan(args, 2, opts, false, false, 0, st0) == Scan::Done(so2));
    assert(so2.vals =~= seq![Some(v0), Some(v1), Some(Seq::<char>::empty())]);
    assert(so2.pos =~= Seq::<Seq<char>>::empty());
    assert(!missing_required(opts, so2.vals));
    assert(leaf_phase(args, 2, l, None) == Ok::<_, CliError>((l, Seq::<Seq<char>>::empty(), seq![Some(v0), Some(v1), Some(Seq::<char>::empty())], None::<Seq<char>>)));
    lemma_scan_word(args, 1, Seq::empty(), true, fresh(None, 0));
    assert(parse_spec(args) == Ok::<_, CliError>((l, Seq::<Seq<char>>::empty(), seq![Some(v0), Some(v1), Some(Seq::<char>::empty())], None::<Seq<char>>)));
    assert(r is Ok && r->Ok_0.command.shape().0 == l);
    assert(r->Ok_0.command is GenerateFlake);
    assert(r->Ok_0.command.shape().2[0] == Some(v0));
    assert(r->Ok_0.command.shape().2[1] == Some(v1));
    assert(r->Ok_0.command.shape().2[2] == Some(Seq::<char>::empty()));
}

} // verus!

verus! {

/// `-d <dir>` or `--data-dir <dir>` before the command word names the data
/// directory the command works in.
pub proof fn law_data_dir_option(prog: Seq<char>, dir: Seq<char>, long: bool, r: Result<Cli, CliError>)
    requires
        is_plain(dir) && dir.len() > 0,
        parse_agrees(seq![prog, if long { "--data-dir"@ } else { "-d"@ }, dir, "status"@], r),
    ensures
        r matches Ok(c) && c.command is Status && c.data_dir is Some && c.data_dir->0@ == dir,
{
    lemma_words();
    lemma_word_meanings();
    reveal_strlit("-d");
    reveal_strlit("--data-dir");
    reveal_strlit("data-dir");
    reveal_strlit("help");
    reveal_strlit("version");
    assert("-d"@.len() == 2 && "-d"@[0] == '-' && "-d"@[1] == 'd');
    assert("data-dir"@.len() == 8 && "help"@.len() == 4 && "version"@.len() == 7);
    let o = if long { "--data-dir"@ } else { "-d"@ };
    let args = seq![prog, o, dir, "status"@];
    let st0 = fresh(None, 0);
    let st1 = ScanV { vals: st0.vals, pos: st0.pos, dd: Some(dir), dd_here: true, stop: false };
    if long {
        let t = args[1];
        assert(t =~= seq!['-', '-'] + "data-dir"@);
        assert(t.skip(2) =~= "data-dir"@);
        assert forall|j: int| 0 <= j < 8 implies #[trigger] "data-dir"@[j] != '=' by {
            assert("data-dir"@ =~= seq!['d', 'a', 't', 'a', '-', 'd', 'i', 'r']);
        }
        lemma_eq_pos_none("data-dir"@, 0);
        assert("data-dir"@.take(8) =~= "data-dir"@);
        assert(long_name(t) == "data-dir"@);
        assert(long_inline(t) is None);
        assert(is_long(t));
    } else {
        assert(args[1].skip(2) =~= Seq::<char>::empty());
        assert(short_inline(args[1]) is None);
    }
    assert(step(args, 1, Seq::empty(), true, true, 0, st0) == Scan::Next(3, st1));
    lemma_scan_word(args, 3, Seq::empty(), true, st1);
    assert(scan(args, 1, Seq::empty(), true, true, 0, st0) == Scan::Word(3, st1));
    assert(scan(args, 4, leaf_options(Leaf::Status), false, false, 0, fresh(Some(dir), 0)) == Scan::Done(
        fresh(Some(dir), 0),
    ));
    assert(!missing_required(leaf_options(Leaf::Status), fresh(Some(dir), 0).vals));
    assert(parse_spec(args) == Ok::<_, CliError>(
        (Leaf::Status, Seq::<Seq<char>>::empty(), Seq::<Option<Seq<char>>>::empty(), Some(dir)),
    ));
    assert(r is Ok && r->Ok_0.command.shape().0 == Leaf::Status);
}

/// A command line with no command is refused for want of one.
pub proof fn law_no_command_is_refused(prog: Seq<char>, r: Result<Cli, CliError>)
    requires
        parse_agrees(seq![prog], r),
    ensures
        r == Err::<Cli, CliError>(CliError::MissingSubcommand),
{
}

/// A plain word that names no command is refused as an unknown command.
pub proof fn law_unknown_command_word_is_refused(prog: Seq<char>, w: Seq<char>, r: Result<Cli, CliError>)
    requires
        is_plain(w),
        w != "help"@ && w != "status"@ && w != "serve"@ && w != "apply"@ && w != "generate-flake"@,
        w != "agent"@ && w != "checkpoint"@ && w != "git"@ && w != "config"@ && w != "provider"@,
        w != "model"@ && w != "skill"@ && w != "tool"@ && w != "key"@,
        parse_agrees(seq![prog, w], r),
    ensures
        r == Err::<Cli, CliError>(CliError::InvalidSubcommand),
{
    let args = seq![prog, w];
    lemma_scan_word(args, 1, Seq::empty(), true, fresh(None, 0));
    assert(top_of_word(w) is None);
}

/// `help`, `--help` and `-h` ask for the help text, and `--version` and
/// `-V` for the version.
pub proof fn law_help_and_version(prog: Seq<char>, w: Seq<char>, r: Result<Cli, CliError>)
    requires
        parse_agrees(seq![prog, w], r),
    ensures
        (w == "help"@ || w == "--help"@ || w == "-h"@) ==> r == Err::<Cli, CliError>(CliError::DisplayHelp),
        (w == "--version"@ || w == "-V"@) ==> r == Err::<Cli, CliError>(CliError::DisplayVersion),
{
    reveal_strlit("help");
    reveal_strlit("--help");
    reveal_strlit("-h");
    reveal_strlit("--version");
    reveal_strlit("-V");
    reveal_strlit("version");
    let args = seq![prog, w];
    let st0 = fresh(None, 0);
    if w == "help"@ {
        assert("help"@.len() == 4 && "help"@[0] == 'h');
        lemma_scan_word(args, 1, Seq::empty(), true, st0);
    } else if w == "--help"@ || w == "--version"@ {
        assert(w.len() > 2 && w[0] == '-' && w[1] == '-');
        lemma_eq_pos_none(w.skip(2), 0);
        assert(w.skip(2).take(w.skip(2).len() as int) =~= w.skip(2));
        if w == "--help"@ {
            assert(w.skip(2) =~= "help"@);
        } else {
            assert(w.skip(2) =~= "version"@);
            assert("version"@.len() == 7 && "help"@.len() == 4);
        }
        assert(long_inline(w) is None);
        assert(is_long(w));
    } else if w == "-h"@ || w == "-V"@ {
        assert(w.len() == 2 && w[0] == '-');
        assert(w.skip(2) =~= Seq::<char>::empty());
    }
}

/// `model create <name>` without its provider and model name is refused for
/// want of them.
pub proof fn law_model_create_needs_its_options(prog: Seq<char>, n: Seq<char>, r: Result<Cli, CliError>)
    requires
        is_plain(n),
        parse_agrees(seq![prog, "model"@, "create"@, n], r),
    ensures
        r == Err::<Cli, CliError>(CliError::MissingRequiredArgument),
{
    lemma_words_model();
    let args = seq![prog, "model"@, "create"@, n];
    let l = Leaf::ModelCreate;
    let opts = leaf_options(l);
    let st0 = fresh(None, 2);
    lemma_scan_positionals(args, 3, opts, 1, st0);
    lemma_scan_word(args, 1, Seq::empty(), true, fresh(None, 0));
    lemma_scan_word(args, 2, Seq::empty(), false, fresh(None, 0));
    assert(opts[0].required && st0.vals[0] is None);
    assert(missing_required(opts, st0.vals));
}

} // verus!

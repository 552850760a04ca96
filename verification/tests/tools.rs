use cerebrate::access::{admit_skill_run, admit_tool_run, check_tool_authorization};
use cerebrate::models::{Error, SkillMetadata, SkillType, State, ToolMetadata};
use cerebrate::swarm::skill_manager::{agent_script_outcome, secret_env_key, SkillManager, SkillRun};
use cerebrate::swarm::tool_manager::{
    build_bwrap_command, build_nix_command, escape_single_quotes, extract_frontmatter, join_with_newlines,
    prepare_tool_input, script_outcome, tool_command, with_default_names, GitOps,
};

fn strings(v: &[&str]) -> Vec<String> {
    v.iter().map(|s| s.to_string()).collect()
}

fn pairs(v: &[(&str, &str)]) -> Vec<(String, String)> {
    v.iter().map(|(a, b)| (a.to_string(), b.to_string())).collect()
}

#[test]
fn single_quotes_are_escaped_for_the_shell() {
    assert_eq!(escape_single_quotes("plain"), "plain");
    assert_eq!(escape_single_quotes("it's"), "it'\\''s");
    assert_eq!(escape_single_quotes(""), "");
}

#[test]
fn lines_are_joined_with_newlines() {
    assert_eq!(join_with_newlines(&strings(&[])), "");
    assert_eq!(join_with_newlines(&strings(&["a"])), "a");
    assert_eq!(join_with_newlines(&strings(&["a", "b", "c"])), "a\nb\nc");
}

#[test]
fn script_outcomes() {
    let ok = script_outcome(true, &strings(&["{\"x\":", "1}"]), &strings(&[]));
    assert!(ok.success);
    assert_eq!(ok.output, Some("{\"x\":1}".to_string()));
    assert!(ok.error.is_none());

    let raw = script_outcome(true, &strings(&["hello \"you\""]), &strings(&[]));
    assert!(raw.success);
    assert_eq!(raw.output, Some("{\"raw\":\"hello \\\"you\\\"\"}".to_string()));

    let failed = script_outcome(false, &strings(&["ignored"]), &strings(&["boom", "bang"]));
    assert!(!failed.success);
    assert!(failed.output.is_none());
    assert_eq!(failed.error, Some("Script failed: boom\nbang".to_string()));
}

#[test]
fn nix_shell_runs_the_entrypoint_with_quoted_input() {
    let c = build_nix_command("/t/x", "./run.sh", "{\"q\":\"it's\"}", &pairs(&[("A", "1")]));
    assert_eq!(c.program, "nix-shell");
    assert_eq!(c.args, strings(&["/t/x", "--run", "./run.sh '{\"q\":\"it'\\''s\"}'"]));
    assert_eq!(c.env, pairs(&[("A", "1"), ("TOOL_INPUT", "{\"q\":\"it's\"}")]));
}

#[test]
fn bwrap_sandbox_arguments() {
    let c = build_bwrap_command("/t/x", "python3 main.py", "{}", &pairs(&[("K", "V")]), false);
    assert_eq!(c.program, "bwrap");
    assert!(c.env.is_empty());
    let expected = strings(&[
        "--ro-bind", "/nix/store", "/nix/store",
        "--ro-bind", "/t/x", "/tool",
        "--ro-bind", "/etc/resolv.conf", "/etc/resolv.conf",
        "--ro-bind", "/etc/hosts", "/etc/hosts",
        "--dev", "/dev",
        "--proc", "/proc",
        "--tmpfs", "/tmp",
        "--die-with-parent",
        "--chdir", "/tool",
        "--unshare-ipc",
        "--unshare-pid",
        "--setenv", "K", "V",
        "--setenv", "TOOL_INPUT", "{}",
        "--", "python3", "main.py", "{}",
    ]);
    assert_eq!(c.args, expected);
    let n = build_bwrap_command("/t/x", "./run.sh", "{}", &pairs(&[]), true);
    let tail: Vec<String> = n.args[n.args.len() - 5..].to_vec();
    assert_eq!(tail, strings(&["--", "nix-shell", "/t/x", "--run", "./run.sh '{}'"]));
}

#[test]
fn tools_with_shell_nix_run_in_nix_shell() {
    assert_eq!(tool_command("/t", "run", "{}", &pairs(&[]), true).program, "nix-shell");
    let b = tool_command("/t", "run", "{}", &pairs(&[]), false);
    assert_eq!(b.program, "bwrap");
    assert_eq!(b.args.last().unwrap(), "{}");
}

#[test]
fn frontmatter_sits_between_the_first_two_markers() {
    let doc = "---\nname: x\nslug: y\n---\n# Body\n---\n";
    assert_eq!(extract_frontmatter(doc).unwrap(), "name: x\nslug: y");
    match extract_frontmatter("no markers here") {
        Err(Error::Validation(m)) => assert_eq!(m, "Invalid SKILL.md format: missing YAML frontmatter"),
        _ => panic!("expected Validation"),
    }
    assert!(extract_frontmatter("--- only one").is_err());
}

#[test]
fn empty_skill_names_default_to_the_slug() {
    let m = SkillMetadata {
        slug: String::new(),
        name: String::new(),
        version: "1".to_string(),
        description: "d".to_string(),
        entrypoint: "e".to_string(),
    };
    let r = with_default_names(m, "dir-name");
    assert_eq!(r.slug, "dir-name");
    assert_eq!(r.name, "dir-name");
    assert_eq!(r.version, "1");
    let kept = with_default_names(
        SkillMetadata { slug: "s".to_string(), name: "N".to_string(), version: String::new(), description: String::new(), entrypoint: String::new() },
        "dir-name",
    );
    assert_eq!(kept.slug, "s");
    assert_eq!(kept.name, "N");
}

#[test]
fn git_failures_name_the_repository() {
    let g = GitOps::new("/d".to_string(), "https://git.example.com/".to_string(), "t".to_string());
    match g.clone_failure("org/tool") {
        Error::TaskFailed(m) => assert_eq!(m, "Failed to clone from https://git.example.com/org/tool.git"),
        _ => panic!("expected TaskFailed"),
    }
    match GitOps::pull_failure("conflict") {
        Error::TaskFailed(m) => assert_eq!(m, "Failed to pull: conflict"),
        _ => panic!("expected TaskFailed"),
    }
}

#[test]
fn skill_secrets_become_upper_case_variables() {
    assert_eq!(secret_env_key("my-key"), "SKILL_SECRET_MY_KEY");
    assert_eq!(secret_env_key("Token"), "SKILL_SECRET_TOKEN");
}

#[test]
fn skill_runs_with_secrets_and_quoted_arguments() {
    let mut s = State::new();
    s.create_agent("owner".to_string(), None, "t".to_string(), "t".to_string()).unwrap();
    s.create_skill("sk".to_string(), "Skill".to_string(), SkillType::HostScript, "owner".to_string(), "./go".to_string(), None, None, "t".to_string()).unwrap();
    let skill = s.skills.get("sk").unwrap();
    let m = SkillManager::new("/d".to_string());
    let c = m.invoke_command(skill, "{\"a\":\"b'c\"}", &pairs(&[("api-key", "xyz")]));
    assert_eq!(c.program, "nix-shell");
    assert_eq!(c.args, strings(&["--pure", "/d/skills/sk", "--run", "./go 'sk' '{\"a\":\"b'\\''c\"}'"]));
    assert_eq!(
        c.env,
        pairs(&[("SKILL_SECRET_API_KEY", "xyz"), ("SKILL_ID", "sk"), ("SKILL_INPUT", "{\"a\":\"b'c\"}")])
    );
    assert!(m.check_authorization(skill, "owner"));
    assert!(!m.check_authorization(skill, "stranger"));
}

fn tool_meta() -> ToolMetadata {
    ToolMetadata {
        name: "Tool".to_string(),
        version: "1.0".to_string(),
        description: "d".to_string(),
        entrypoint: "./run".to_string(),
        input_schema: None,
        output_schema: None,
    }
}

#[test]
fn registered_tools_are_shared_with_their_author() {
    let mut s = State::new();
    s.create_agent("author".to_string(), None, "t".to_string(), "t".to_string()).unwrap();
    s.create_agent("other".to_string(), None, "t".to_string(), "t".to_string()).unwrap();
    assert!(s.check_tool_registration("tl", "author").is_ok());
    assert_eq!(s.check_tool_registration("tl", "ghost"), Err("Agent 'ghost' not found".to_string()));
    s.register_tool("tl".to_string(), "org/tl".to_string(), "abc123".to_string(), tool_meta(), "author".to_string(), "t0".to_string());
    assert_eq!(s.check_tool_registration("tl", "author"), Err("Tool 'tl' already exists".to_string()));
    let t = s.tools.get("tl").unwrap();
    assert!(t.enabled);
    assert_eq!(t.allowed_agents, vec!["author".to_string()]);
    assert!(check_tool_authorization(t, "author"));
    assert!(!check_tool_authorization(t, "other"));
    s.authorize_tool("tl", "other", "t1".to_string()).unwrap();
    assert!(check_tool_authorization(s.tools.get("tl").unwrap(), "other"));
    s.revoke_tool("tl", "other", "t2".to_string()).unwrap();
    assert!(!check_tool_authorization(s.tools.get("tl").unwrap(), "other"));
    let mut newer = tool_meta();
    newer.version = "2.0".to_string();
    s.update_pulled_tool("tl", "def456".to_string(), newer, "t3".to_string()).unwrap();
    let t = s.tools.get("tl").unwrap();
    assert_eq!(t.version, "2.0");
    assert_eq!(t.git_commit, "def456");
    assert_eq!(t.updated_at, "t3");
    s.delete_tool("tl").unwrap();
    assert!(s.delete_tool("tl").is_err());
}

/// Reads one shell word: single-quoted parts literally, a backslash outside
/// quotes takes the next character, anything else stands for itself.
fn read_word(t: &str) -> String {
    let mut out = String::new();
    let mut quoted = false;
    let mut chars = t.chars();
    while let Some(c) = chars.next() {
        if quoted {
            if c == '\'' { quoted = false } else { out.push(c) }
        } else if c == '\'' {
            quoted = true;
        } else if c == '\\' {
            if let Some(n) = chars.next() { out.push(n) } else { out.push(c) }
        } else {
            out.push(c);
        }
    }
    out
}

#[test]
fn quoted_input_reads_back_unchanged() {
    for s in ["{}", "it's", "''", "a'b'c", "\\'", "{\"q\":\"it's \\\"x\\\"\"}", ""] {
        assert_eq!(read_word(&format!("'{}'", escape_single_quotes(s))), s);
    }
}

#[test]
fn runs_are_admitted_in_order() {
    let mut s = State::new();
    s.create_agent("owner".to_string(), None, "t".to_string(), "t".to_string()).unwrap();
    s.create_skill("sk".to_string(), "Skill".to_string(), SkillType::AgentScript, "owner".to_string(), "./go".to_string(), None, None, "t".to_string()).unwrap();
    assert_eq!(admit_skill_run(&s, "nope", "owner"), Err("Skill 'nope' not found".to_string()));
    assert_eq!(
        admit_skill_run(&s, "sk", "stranger"),
        Err("Agent 'stranger' is not authorized to invoke this skill".to_string())
    );
    assert_eq!(admit_skill_run(&s, "sk", "owner"), Ok(SkillType::AgentScript));
    s.register_tool("tl".to_string(), "org/tl".to_string(), "c".to_string(), tool_meta(), "owner".to_string(), "t".to_string());
    assert_eq!(admit_tool_run(&s, "zz", None), Err("Tool 'zz' not found".to_string()));
    assert_eq!(admit_tool_run(&s, "tl", None), Ok(()));
    assert_eq!(
        admit_tool_run(&s, "tl", Some("stranger")),
        Err("Agent 'stranger' is not authorized to invoke this tool".to_string())
    );
    assert_eq!(admit_tool_run(&s, "tl", Some("owner")), Ok(()));
    let r = agent_script_outcome();
    assert!(!r.success && r.output.is_none());
    assert!(r.error.unwrap().starts_with("AgentScript execution requires"));
}

fn skill_meta() -> SkillMetadata {
    SkillMetadata {
        slug: "sk".to_string(),
        name: "Skill".to_string(),
        version: "1.0".to_string(),
        description: "does things".to_string(),
        entrypoint: "run.sh".to_string(),
    }
}

#[test]
fn skill_clone_records_repository_and_refuses_taken_slug() {
    let mut s = State::new();
    s.create_agent("author".to_string(), None, "t".to_string(), "t".to_string()).unwrap();
    assert_eq!(s.check_skill_registration("sk", "author"), Ok(()));
    assert_eq!(s.check_skill_registration("sk", "ghost"), Err("Agent 'ghost' not found".to_string()));
    assert_eq!(
        s.register_skill("sk".to_string(), "org/sk".to_string(), "abc12345".to_string(), skill_meta(), "ghost".to_string(), "t0".to_string()),
        Err("Agent 'ghost' not found".to_string())
    );
    assert_eq!(s.skills.len(), 0);
    s.register_skill("sk".to_string(), "org/sk".to_string(), "abc12345".to_string(), skill_meta(), "author".to_string(), "t0".to_string())
        .unwrap();
    let k = s.skills.get("sk").unwrap();
    assert_eq!(k.id, "sk");
    assert_eq!(k.version, "1.0");
    assert_eq!(k.forgejo_repo, "org/sk");
    assert_eq!(k.git_commit, "abc12345");
    assert_eq!(k.owner_agent, "author");
    assert_eq!(k.allowed_agents, vec!["author".to_string()]);
    assert_eq!(k.created_at, "t0");
    assert_eq!(k.updated_at, "t0");
    assert_eq!(s.check_skill_registration("sk", "author"), Err("Skill 'sk' already exists".to_string()));
    assert_eq!(
        s.register_skill("sk".to_string(), "org/other".to_string(), "ffff0000".to_string(), skill_meta(), "author".to_string(), "t1".to_string()),
        Err("Skill 'sk' already exists".to_string())
    );
    assert_eq!(s.skills.get("sk").unwrap().forgejo_repo, "org/sk");
    match s.create_skill("sk".to_string(), "X".to_string(), SkillType::HostScript, "author".to_string(), "x.sh".to_string(), None, None, "t2".to_string()) {
        Err(Error::Validation(m)) => assert_eq!(m, "Skill 'sk' already exists"),
        _ => panic!("expected a refusal"),
    }
    assert_eq!(s.skills.get("sk").unwrap().name, "Skill");
}

#[test]
fn skill_pull_updates_commit_version_and_description() {
    let mut s = State::new();
    s.create_agent("author".to_string(), None, "t".to_string(), "t".to_string()).unwrap();
    s.register_skill("sk".to_string(), "org/sk".to_string(), "abc12345".to_string(), skill_meta(), "author".to_string(), "t0".to_string())
        .unwrap();
    let mut newer = skill_meta();
    newer.version = "2.0".to_string();
    newer.description = "does more".to_string();
    s.update_pulled_skill("sk", "def67890".to_string(), newer, "t1".to_string()).unwrap();
    let k = s.skills.get("sk").unwrap();
    assert_eq!(k.git_commit, "def67890");
    assert_eq!(k.version, "2.0");
    assert_eq!(k.description, "does more");
    assert_eq!(k.updated_at, "t1");
    assert_eq!(k.created_at, "t0");
    assert_eq!(k.forgejo_repo, "org/sk");
    match s.update_pulled_skill("nope", "x".to_string(), skill_meta(), "t2".to_string()) {
        Err(Error::NotFound(m)) => assert_eq!(m, "Skill 'nope' not found"),
        _ => panic!("expected NotFound"),
    }
}

#[test]
fn tool_input_is_checked_and_compacted() {
    let mut s = State::new();
    s.create_agent("author".to_string(), None, "t".to_string(), "t".to_string()).unwrap();
    match prepare_tool_input(&s, "tl", "{}") {
        Err(Error::NotFound(m)) => assert_eq!(m, "Tool 'tl' not found"),
        _ => panic!("expected NotFound"),
    }
    s.register_tool("tl".to_string(), "org/tl".to_string(), "abc123".to_string(), tool_meta(), "author".to_string(), "t0".to_string());
    match prepare_tool_input(&s, "tl", "{ \"a\" : 1 }") {
        Ok(t) => assert_eq!(t, "{\"a\":1}"),
        _ => panic!("expected the compact input"),
    }
    match prepare_tool_input(&s, "tl", "{not json") {
        Err(Error::Validation(m)) => assert!(m.starts_with("Invalid JSON input: ")),
        _ => panic!("expected Validation"),
    }
}

#[test]
fn entrypoint_words_split_on_unicode_whitespace() {
    let c = build_bwrap_command("/t/x", "  python3\u{3000}main.py\u{85}--fast\t", "{}", &pairs(&[]), false);
    let tail: Vec<String> = c.args[c.args.len() - 5..].to_vec();
    assert_eq!(tail, strings(&["--", "python3", "main.py", "--fast", "{}"]));
    assert_eq!(extract_frontmatter("---\u{a0}\n name: x \u{2003}\n---\nbody").unwrap(), "name: x");
}

#[test]
fn raw_output_is_quoted_with_json_escapes() {
    let raw = script_outcome(true, &strings(&["a\tb\\c\u{1}\u{e9}"]), &strings(&[]));
    assert_eq!(raw.output, Some("{\"raw\":\"a\\tb\\\\c\\u0001\u{e9}\"}".to_string()));
}

#[test]
fn skill_runs_are_refused_answered_or_planned() {
    let mut s = State::new();
    s.create_agent("owner".to_string(), None, "t".to_string(), "t".to_string()).unwrap();
    s.create_skill("host".to_string(), "H".to_string(), SkillType::HostScript, "owner".to_string(), "run.sh".to_string(), None, None, "t".to_string()).unwrap();
    s.create_skill("agent".to_string(), "A".to_string(), SkillType::AgentScript, "owner".to_string(), "a.sh".to_string(), None, None, "t".to_string()).unwrap();
    let m = SkillManager::new("/d".to_string());
    let none: Vec<(String, String)> = vec![];
    match m.plan_skill_run(&s, "nope", "owner", "{}", &none) {
        SkillRun::Refused(e) => assert_eq!(e, "Skill 'nope' not found"),
        _ => panic!("expected a refusal"),
    }
    match m.plan_skill_run(&s, "host", "stranger", "{}", &none) {
        SkillRun::Refused(e) => assert_eq!(e, "Agent 'stranger' is not authorized to invoke this skill"),
        _ => panic!("expected a refusal"),
    }
    match m.plan_skill_run(&s, "agent", "owner", "{}", &none) {
        SkillRun::Answered(a) => {
            assert!(!a.success);
            assert_eq!(a.error, agent_script_outcome().error);
        }
        _ => panic!("expected an answer"),
    }
    match m.plan_skill_run(&s, "host", "owner", "{}", &none) {
        SkillRun::Run(c) => {
            assert_eq!(c.program, "nix-shell");
            assert_eq!(c.args[0], "--pure");
            assert_eq!(c.args[1], "/d/skills/host");
        }
        _ => panic!("expected a command"),
    }
}

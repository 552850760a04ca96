use cerebrate::models::{CheckpointMeta, ProviderType, SkillMetadata, State, ToolMetadata};
use cerebrate::report::{
    agent_details_lines, agent_table_lines, checkpoint_table_lines, container_summary_lines, join_cells,
    key_table_lines, model_table_lines, provider_table_lines, rule, short_commit, skill_table_lines,
    tool_clone_summary_lines, tool_details_lines, tool_table_lines,
};

#[test]
fn cells_are_padded_like_format() {
    let cells = vec![("ab".to_string(), 5usize), ("toolongvalue".to_string(), 4usize), ("x".to_string(), 0usize)];
    assert_eq!(join_cells(&cells), format!("{:<5} {:<4} {:<0}", "ab", "toolongvalue", "x"));
    assert_eq!(rule(4), "----");
    assert_eq!(rule(0), "");
}

fn sample() -> State {
    let mut s = State::new();
    s.defaults.container_subnet_base = "10.0".to_string();
    s.create_agent("alpha".to_string(), None, "tok".to_string(), "t0".to_string()).unwrap();
    s.create_agent("beta".to_string(), Some("b".to_string()), "tok2".to_string(), "t0".to_string()).unwrap();
    s.set_agent_enabled("beta", false, "t1".to_string()).unwrap();
    s
}

#[test]
fn empty_tables_say_so() {
    let s = State::new();
    assert_eq!(agent_table_lines(&s), vec!["No agents found.".to_string()]);
    assert_eq!(tool_table_lines(&s), vec!["No tools found.".to_string()]);
    assert_eq!(model_table_lines(&s), vec!["No models found.".to_string()]);
    assert_eq!(key_table_lines(&s), vec!["No API keys found.".to_string()]);
}

#[test]
fn agent_table_rows() {
    let lines = agent_table_lines(&sample());
    assert_eq!(lines.len(), 4);
    assert_eq!(lines[0], format!("{:<20} {:<8} {:<15} {:<15}", "NAME", "ENABLED", "CONTAINER_IP", "HOST_IP"));
    assert_eq!(lines[1], "-".repeat(60));
    assert_eq!(lines[2], format!("{:<20} {:<8} {:<15} {:<15}", "alpha", "yes", "10.0.1.2", "10.0.1.1"));
    assert_eq!(lines[3], format!("{:<20} {:<8} {:<15} {:<15}", "beta", "no", "10.0.2.2", "10.0.2.1"));
}

#[test]
fn key_and_model_tables_name_providers() {
    let mut s = State::new();
    s.create_provider("p1".to_string(), "Main".to_string(), ProviderType::Openai, "u".to_string(), "k".to_string(), "t".to_string());
    s.create_api_key("k1".to_string(), "first".to_string(), "h".to_string(), "p1".to_string(), "t".to_string());
    s.create_api_key("k2".to_string(), "second".to_string(), "h".to_string(), "gone".to_string(), "t".to_string());
    let keys = key_table_lines(&s);
    assert_eq!(keys[0], format!("{:<36} {:<20} {:<20}", "ID", "NAME", "PROVIDER"));
    assert_eq!(keys[1], "-".repeat(80));
    assert_eq!(keys[2], format!("{:<36} {:<20} {:<20}", "k1", "first", "Main"));
    assert_eq!(keys[3], format!("{:<36} {:<20} {:<20}", "k2", "second", "unknown"));
    s.create_model("m1".to_string(), "M".to_string(), "p1".to_string(), "gpt-4".to_string(), "t".to_string()).unwrap();
    let models = model_table_lines(&s);
    assert_eq!(models[0], format!("{:<36} {:<20} {:<20} {:<20}", "ID", "NAME", "MODEL", "PROVIDER"));
    assert_eq!(models[1], "-".repeat(100));
    assert_eq!(models[2], format!("{:<36} {:<20} {:<20} {:<20}", "m1", "M", "gpt-4", "Main"));
}

fn cp(id: &str, agent: &str, at: &str, d: &str) -> CheckpointMeta {
    CheckpointMeta {
        id: id.to_string(),
        agent_name: agent.to_string(),
        description: d.to_string(),
        created_at: at.to_string(),
        btrfs_snapshot: String::new(),
    }
}

#[test]
fn checkpoint_tables() {
    assert_eq!(checkpoint_table_lines(&vec![], None), vec!["No checkpoints found".to_string()]);
    assert_eq!(
        checkpoint_table_lines(&vec![], Some("a")),
        vec!["No checkpoints found for agent 'a'".to_string()]
    );
    let ms = vec![cp("cp_1", "a", "2024", "first")];
    let all = checkpoint_table_lines(&ms, None);
    assert_eq!(all[0], format!("{:<30} {:<15} {:<20} {}", "ID", "AGENT", "CREATED", "DESCRIPTION"));
    assert_eq!(all[1], "-".repeat(85));
    assert_eq!(all[2], format!("{:<30} {:<15} {:<20} {}", "cp_1", "a", "2024", "first"));
    let of_a = checkpoint_table_lines(&ms, Some("a"));
    assert_eq!(of_a[0], "Checkpoints for agent 'a':\n");
    assert_eq!(of_a[1], format!("{:<30} {:<20} {}", "ID", "CREATED", "DESCRIPTION"));
    assert_eq!(of_a[2], "-".repeat(70));
    assert_eq!(of_a[3], format!("{:<30} {:<20} {}", "cp_1", "2024", "first"));
}

#[test]
fn agent_details_print_each_field() {
    let s = sample();
    let lines = agent_details_lines("beta", s.agents.get("beta").unwrap());
    assert_eq!(
        lines,
        vec![
            "Agent: beta",
            "  Enabled: false",
            "  Container IP: 10.0.2.2",
            "  Host IP: 10.0.2.1",
            "  Forgejo Username: Some(\"b\")",
            "  Internal Token: tok2",
            "  Created: t0",
            "  Updated: t1",
        ]
    );
    let alpha = agent_details_lines("alpha", s.agents.get("alpha").unwrap());
    assert_eq!(alpha[4], "  Forgejo Username: None");
    assert_eq!(
        container_summary_lines(&s),
        vec!["  - alpha (enabled) @ 10.0.1.2", "  - beta (disabled) @ 10.0.2.2"]
    );
}

#[test]
fn tool_reports() {
    let mut s = sample();
    let meta = ToolMetadata {
        name: "Grep".to_string(),
        version: "0.3".to_string(),
        description: "search".to_string(),
        entrypoint: "./grep.sh".to_string(),
        input_schema: None,
        output_schema: None,
    };
    s.register_tool("grep".to_string(), "org/grep".to_string(), "0123456789abcdef".to_string(), meta, "alpha".to_string(), "t".to_string());
    let table = tool_table_lines(&s);
    assert_eq!(table[0], format!("{:<20} {:<10} {:<30} {:<8}", "SLUG", "VERSION", "REPO", "ENABLED"));
    assert_eq!(table[2], format!("{:<20} {:<10} {:<30} {:<8}", "grep", "0.3", "org/grep", "yes"));
    let t = s.tools.get("grep").unwrap();
    assert_eq!(short_commit(&t.git_commit), "01234567");
    let details = tool_details_lines(t, &vec![]);
    assert_eq!(details.len(), 10);
    assert_eq!(details[6], "  Commit: 01234567");
    assert_eq!(details[9], "  Allowed agents: [\"alpha\"]");
    let with_env = tool_details_lines(t, &vec!["TOKEN".to_string()]);
    assert_eq!(with_env[10], "  Env vars: [\"TOKEN\"]");
    assert_eq!(
        tool_clone_summary_lines(t),
        vec![
            "Tool 'grep' cloned successfully:",
            "  Name: Grep",
            "  Version: 0.3",
            "  Repo: org/grep",
            "  Entrypoint: ./grep.sh",
        ]
    );
}

#[test]
fn short_commits_are_the_first_eight_bytes() {
    assert_eq!(short_commit("0123456789abcdef"), "01234567");
    assert_eq!(short_commit("01234567"), "01234567");
    assert_eq!(short_commit("\u{e9}\u{e9}\u{e9}\u{e9}xyz"), "\u{e9}\u{e9}\u{e9}\u{e9}");
    assert_eq!(short_commit("ab\u{20ac}\u{20ac}zz"), "ab\u{20ac}\u{20ac}");
}

#[test]
fn provider_table_lists_kind_and_name() {
    let mut s = State::new();
    assert_eq!(provider_table_lines(&s), vec!["No providers found.".to_string()]);
    s.create_provider("p1".to_string(), "Main".to_string(), ProviderType::Deepseek, "https://x".to_string(), "k".to_string(), "t".to_string());
    let lines = provider_table_lines(&s);
    assert_eq!(lines.len(), 3);
    assert_eq!(lines[0], format!("{:<36} {:<15} {:<30}", "ID", "TYPE", "NAME"));
    assert_eq!(lines[1], "-".repeat(85));
    assert_eq!(lines[2], format!("{:<36} {:<15} {:<30}", "p1", "deepseek", "Main"));
}

#[test]
fn skill_table_lists_version_and_repository() {
    let mut s = State::new();
    assert_eq!(skill_table_lines(&s), vec!["No skills found.".to_string()]);
    s.create_agent("alpha".to_string(), None, "tok".to_string(), "t".to_string()).unwrap();
    let meta = SkillMetadata {
        slug: "sk".to_string(),
        name: "Skill".to_string(),
        version: "1.2".to_string(),
        description: "d".to_string(),
        entrypoint: "run.sh".to_string(),
    };
    s.register_skill("sk".to_string(), "org/sk".to_string(), "0123456789".to_string(), meta, "alpha".to_string(), "t".to_string()).unwrap();
    let lines = skill_table_lines(&s);
    assert_eq!(lines[0], format!("{:<20} {:<10} {:<30}", "SLUG", "VERSION", "REPO"));
    assert_eq!(lines[1], "-".repeat(70));
    assert_eq!(lines[2], format!("{:<20} {:<10} {:<30}", "sk", "1.2", "org/sk"));
}

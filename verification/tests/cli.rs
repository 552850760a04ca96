use cerebrate::cli::{AgentCommands, Cli, CliError, Commands, ToolCommands, DEFAULT_PORT, MAX_CHECKPOINTS_PER_AGENT};

#[test]
fn test_default_port() {
    assert_eq!(DEFAULT_PORT, 17531);
}

#[test]
fn test_max_checkpoints() {
    assert_eq!(MAX_CHECKPOINTS_PER_AGENT, 10);
}

#[test]
fn test_cli_parse_serve() {
    let cli = Cli::try_parse_from(["cerebrate", "serve"]);
    assert!(cli.is_ok());
}

#[test]
fn test_cli_parse_status() {
    let cli = Cli::try_parse_from(["cerebrate", "status"]);
    assert!(cli.is_ok());
}

#[test]
fn test_cli_parse_agent_list() {
    let cli = Cli::try_parse_from(["cerebrate", "agent", "list"]);
    assert!(cli.is_ok());
    let cli = cli.unwrap();
    match cli.command {
        Commands::Agent { command } => match command {
            AgentCommands::List => (),
            _ => panic!("Wrong command"),
        },
        _ => panic!("Wrong command type"),
    }
}

#[test]
fn test_cli_parse_agent_create() {
    let cli = Cli::try_parse_from(["cerebrate", "agent", "create", "my-agent"]);
    assert!(cli.is_ok());
}

#[test]
fn test_cli_parse_agent_create_with_forgejo() {
    let cli = Cli::try_parse_from(["cerebrate", "agent", "create", "my-agent", "-f", "user1"]);
    assert!(cli.is_ok());
}

#[test]
fn test_cli_parse_apply() {
    let cli = Cli::try_parse_from(["cerebrate", "apply"]);
    assert!(cli.is_ok());
}

#[test]
fn test_cli_parse_apply_with_template() {
    let cli = Cli::try_parse_from(["cerebrate", "apply", "--template", "/templates"]);
    assert!(cli.is_ok());
}

#[test]
fn test_cli_parse_config_export() {
    let cli = Cli::try_parse_from(["cerebrate", "config", "export"]);
    assert!(cli.is_ok());
}

#[test]
fn test_cli_parse_config_sync() {
    let cli = Cli::try_parse_from(["cerebrate", "config", "sync"]);
    assert!(cli.is_ok());
}

#[test]
fn test_cli_parse_config_sync_delete() {
    let cli = Cli::try_parse_from(["cerebrate", "config", "sync", "--delete"]);
    assert!(cli.is_ok());
}

#[test]
fn test_cli_parse_provider_list() {
    let cli = Cli::try_parse_from(["cerebrate", "provider", "list"]);
    assert!(cli.is_ok());
}

#[test]
fn test_cli_parse_provider_create() {
    let cli = Cli::try_parse_from([
        "cerebrate",
        "provider",
        "create",
        "OpenAI",
        "openai",
        "https://api.openai.com",
        "sk-test",
    ]);
    assert!(cli.is_ok());
}

#[test]
fn test_cli_parse_tool_list() {
    let cli = Cli::try_parse_from(["cerebrate", "tool", "list"]);
    assert!(cli.is_ok());
}

#[test]
fn test_cli_parse_tool_clone() {
    let cli = Cli::try_parse_from([
        "cerebrate",
        "tool",
        "clone",
        "my-tool",
        "-r",
        "org/tool",
        "-a",
        "agent-1",
    ]);
    assert!(cli.is_ok());
}

#[test]
fn test_cli_parse_skill_list() {
    let cli = Cli::try_parse_from(["cerebrate", "skill", "list"]);
    assert!(cli.is_ok());
}

#[test]
fn test_cli_parse_key_create() {
    let cli = Cli::try_parse_from(["cerebrate", "key", "create", "my-key", "-p", "provider-1"]);
    assert!(cli.is_ok());
}

#[test]
fn test_cli_parse_checkpoint_list() {
    let cli = Cli::try_parse_from(["cerebrate", "checkpoint", "list"]);
    assert!(cli.is_ok());
}

#[test]
fn test_cli_parse_checkpoint_list_with_agent() {
    let cli = Cli::try_parse_from(["cerebrate", "checkpoint", "list", "-a", "agent-1"]);
    assert!(cli.is_ok());
}

#[test]
fn test_cli_with_data_dir() {
    let cli = Cli::try_parse_from(["cerebrate", "--data-dir", "/custom/dir", "serve"]);
    assert!(cli.is_ok());
    let cli = cli.unwrap();
    assert_eq!(cli.data_dir, Some("/custom/dir".to_string()));
}

#[test]
fn test_cli_parse_tool_setenv() {
    let cli = Cli::try_parse_from(["cerebrate", "tool", "set-env", "my-tool", "API_KEY", "secret"]);
    assert!(cli.is_ok());
}

#[test]
fn test_cli_parse_tool_invoke() {
    let cli = Cli::try_parse_from(["cerebrate", "tool", "invoke", "my-tool", "-i", r#"{"query":"test"}"#]);
    assert!(cli.is_ok());
}

#[test]
fn test_cli_parse_git_users() {
    let cli = Cli::try_parse_from(["cerebrate", "git", "users"]);
    assert!(cli.is_ok());
}

#[test]
fn test_cli_parse_git_create_user() {
    let cli = Cli::try_parse_from(["cerebrate", "git", "create-user", "user1", "pass123", "user@example.com"]);
    assert!(cli.is_ok());
}

#[test]
fn test_cli_parse_git_create_org() {
    let cli = Cli::try_parse_from(["cerebrate", "git", "create-org", "myorg"]);
    assert!(cli.is_ok());
}

#[test]
fn test_cli_parse_git_create_repo() {
    let cli = Cli::try_parse_from(["cerebrate", "git", "create-repo", "myorg", "myrepo"]);
    assert!(cli.is_ok());
}

fn parse_err(args: &[&str]) -> CliError {
    let v: Vec<String> = args.iter().map(|s| s.to_string()).collect();
    match Cli::try_parse_from_strings(&v) {
        Ok(_) => panic!("expected an error"),
        Err(e) => e,
    }
}

#[test]
fn cli_values_reach_their_fields() {
    let cli = Cli::try_parse_from(["cerebrate", "tool", "clone", "my-tool", "--repo=org/tool", "-aagent-1"]).unwrap();
    match cli.command {
        Commands::Tool { command: ToolCommands::Clone { slug, repo, author } } => {
            assert_eq!(slug, "my-tool");
            assert_eq!(repo, "org/tool");
            assert_eq!(author, "agent-1");
        }
        _ => panic!("Wrong command"),
    }
    let cli = Cli::try_parse_from(["cerebrate", "agent", "create", "my-agent", "-f=user1"]).unwrap();
    match cli.command {
        Commands::Agent { command: AgentCommands::Create { name, forgejo_username } } => {
            assert_eq!(name, "my-agent");
            assert_eq!(forgejo_username, Some("user1".to_string()));
        }
        _ => panic!("Wrong command"),
    }
    let cli = Cli::try_parse_from(["cerebrate", "generate-flake", "--force", "-o", "/out"]).unwrap();
    match cli.command {
        Commands::GenerateFlake { output, template, force } => {
            assert_eq!(output, Some("/out".to_string()));
            assert_eq!(template, None);
            assert!(force);
        }
        _ => panic!("Wrong command"),
    }
}

#[test]
fn cli_data_dir_given_last_wins() {
    let cli = Cli::try_parse_from(["cerebrate", "-d", "/a", "agent", "--data-dir=/b", "list", "-d", "/c"]).unwrap();
    assert_eq!(cli.data_dir, Some("/c".to_string()));
    let cli = Cli::try_parse_from(["cerebrate", "serve"]).unwrap();
    assert_eq!(cli.data_dir, None);
}

#[test]
fn cli_errors() {
    assert_eq!(parse_err(&["cerebrate"]), CliError::MissingSubcommand);
    assert_eq!(parse_err(&["cerebrate", "agent"]), CliError::MissingSubcommand);
    assert_eq!(parse_err(&["cerebrate", "bogus"]), CliError::InvalidSubcommand);
    assert_eq!(parse_err(&["cerebrate", "agent", "bogus"]), CliError::InvalidSubcommand);
    assert_eq!(parse_err(&["cerebrate", "agent", "create"]), CliError::MissingRequiredArgument);
    assert_eq!(parse_err(&["cerebrate", "tool", "clone", "t", "-r", "x"]), CliError::MissingRequiredArgument);
    assert_eq!(parse_err(&["cerebrate", "agent", "get", "a", "b"]), CliError::UnknownArgument);
    assert_eq!(parse_err(&["cerebrate", "serve", "--bogus"]), CliError::UnknownArgument);
    assert_eq!(parse_err(&["cerebrate", "apply", "--template"]), CliError::MissingValue);
    assert_eq!(parse_err(&["cerebrate", "apply", "--template", "--force"]), CliError::MissingValue);
    assert_eq!(parse_err(&["cerebrate", "apply", "--template="]), CliError::EmptyValue);
    assert_eq!(parse_err(&["cerebrate", "checkpoint", "list", "-a", "x", "-a", "y"]), CliError::ArgumentConflict);
    assert_eq!(parse_err(&["cerebrate", "config", "sync", "--delete=yes"]), CliError::TooManyValues);
    assert_eq!(parse_err(&["cerebrate", "--help"]), CliError::DisplayHelp);
    assert_eq!(parse_err(&["cerebrate", "agent", "help"]), CliError::DisplayHelp);
    assert_eq!(parse_err(&["cerebrate", "agent", "list", "-h"]), CliError::DisplayHelp);
    assert_eq!(parse_err(&["cerebrate", "-V"]), CliError::DisplayVersion);
    assert_eq!(parse_err(&["cerebrate", "serve", "-V"]), CliError::UnknownArgument);
}

#[test]
fn cli_dashdash_ends_options() {
    let cli = Cli::try_parse_from(["cerebrate", "agent", "get", "--", "-odd-name"]).unwrap();
    match cli.command {
        Commands::Agent { command: AgentCommands::Get { name } } => assert_eq!(name, "-odd-name"),
        _ => panic!("Wrong command"),
    }
    assert_eq!(parse_err(&["cerebrate", "--", "serve"]), CliError::UnknownArgument);
}

use cerebrate::agent_manager::AgentManager as ContainerManager;
use cerebrate::checkpoint::CheckpointManager;
use cerebrate::cli::get_data_dir;
use cerebrate::state::StateManager;
use cerebrate::swarm::agent_manager::AgentManager;
use cerebrate::swarm::skill_manager::SkillManager;
use cerebrate::swarm::tool_manager::{env_dir, GitOps};
use tempfile::tempdir;

#[test]
fn test_agent_manager_new() {
    let dir = tempdir().unwrap();
    let manager = ContainerManager::new(dir.path().to_str().unwrap());
    assert_eq!(std::path::Path::new(&manager.data_dir), dir.path());
}

#[test]
fn test_checkpoint_manager_paths() {
    let dir = tempdir().unwrap();
    let manager = CheckpointManager::new(dir.path().to_str().unwrap());
    assert!(manager.checkpoints_dir.ends_with("checkpoints"));
}

#[test]
fn test_get_data_dir_from_arg() {
    let dir = get_data_dir(Some("/test/dir".to_string()), None, None);
    assert_eq!(dir, "/test/dir");
}

#[test]
fn data_dir_falls_back_to_env_then_home_then_cwd() {
    assert_eq!(get_data_dir(None, Some("/env/dir".to_string()), Some("/home/u".to_string())), "/env/dir");
    assert_eq!(get_data_dir(None, None, Some("/home/u".to_string())), "/home/u/.cerebrate");
    assert_eq!(get_data_dir(None, None, None), ".cerebrate");
}

#[test]
fn state_and_checkpoint_files_sit_in_the_data_dir() {
    let m = StateManager::new("/data");
    assert_eq!(m.path(), "/data/state.json");
    assert_eq!(m.checkpoints_dir(), "/data/checkpoints");
    assert_eq!(m.checkpoint_dir("cp1"), "/data/checkpoints/cp1");
    let trailing = StateManager::new("/data/");
    assert_eq!(trailing.path(), "/data/state.json");
    let c = CheckpointManager::new("/data");
    assert_eq!(c.checkpoint_dir("cp1"), "/data/checkpoints/cp1");
}

#[test]
fn skill_and_tool_directories() {
    let s = SkillManager::new("/var/lib/x".to_string());
    assert_eq!(s.skill_dir("sk"), "/var/lib/x/skills/sk");
    assert_eq!(s.secrets_dir("sk"), "/var/lib/x/secrets/sk");
    assert_eq!(SkillManager::default_location().data_dir, "/var/lib/zerg-swarm");
    let g = GitOps::new("/d".to_string(), "https://git.example.com//".to_string(), "t0k".to_string());
    assert_eq!(g.tool_dir("tl"), "/d/tools/tl");
    assert_eq!(g.skill_dir("sk"), "/d/skills/sk");
    assert_eq!(g.repo_url("org/tool"), "https://git.example.com/org/tool.git");
    assert_eq!(
        g.clone_args("/d/tools/tl", "org/tool"),
        vec!["clone", "--depth", "1", "https://git.example.com/org/tool.git", "/d/tools/tl"]
    );
    let env = g.git_env();
    assert_eq!(env[3], ("GIT_PASSWORD".to_string(), "t0k".to_string()));
    assert_eq!(env_dir("/d", "tl"), "/d/tools/tl/env");
}

#[test]
fn flake_directory_layout() {
    let m = AgentManager::new("/sys");
    assert_eq!(m.generated_dir, "/sys/generated");
    assert_eq!(m.containers_nix_path(), "/sys/generated/container.nix");
    assert_eq!(m.filesystem_nix_path(), "/sys/generated/filesystem.nix");
    assert_eq!(m.rebuild_args(), vec!["nixos-rebuild", "switch", "--flake", "/sys#zerg-swarm"]);
    assert!(m.template_copies().is_empty());
    let t = m.with_template("/tpl");
    let copies = t.template_copies();
    assert_eq!(copies.len(), 3);
    assert_eq!(copies[1], ("/tpl/configuration.nix".to_string(), "/sys/configuration.nix".to_string()));
    assert_eq!(AgentManager::host_subvolume_path("a1"), "/home/@agents/a1");
}

#[test]
fn absolute_components_replace_the_base() {
    assert_eq!(cerebrate::paths::join_path("/a", "/b"), "/b");
    assert_eq!(cerebrate::paths::join_path("", "b"), "b");
    assert_eq!(cerebrate::paths::join_path("a", ""), "a/");
}

#[test]
fn test_get_data_dir_from_env() {
    let dir = get_data_dir(None, Some("/env/dir".to_string()), Some("/home/u".to_string()));
    assert_eq!(dir, "/env/dir");
}

#[test]
fn test_get_data_dir_default() {
    let dir = get_data_dir(None, None, Some("/home/u".to_string()));
    assert!(dir.contains(".cerebrate"));
}

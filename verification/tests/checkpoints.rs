use cerebrate::checkpoint::{copy_command, operation_result, CheckpointManager as ContainerCheckpoints};
use cerebrate::models::{CheckpointMeta, Error, State};
use cerebrate::state::StateManager;
use cerebrate::swarm::checkpoint::{
    check_can_create, check_rollback, checkpoint_id, clone_into_state, restore_agent_config, CheckpointManager,
    MAX_CHECKPOINTS_PER_AGENT,
};

fn one_agent() -> State {
    let mut s = State::new();
    s.defaults.container_subnet_base = "10.1".to_string();
    s.create_agent("a".to_string(), None, "tok".to_string(), "t0".to_string()).unwrap();
    s
}

fn meta(id: &str, agent: &str, created_at: &str) -> CheckpointMeta {
    CheckpointMeta {
        id: id.to_string(),
        agent_name: agent.to_string(),
        description: String::new(),
        created_at: created_at.to_string(),
        btrfs_snapshot: String::new(),
    }
}

#[test]
fn checkpoints_are_limited_per_agent() {
    let s = one_agent();
    assert!(check_can_create(&s, "a", 0).is_ok());
    assert!(check_can_create(&s, "a", MAX_CHECKPOINTS_PER_AGENT - 1).is_ok());
    match check_can_create(&s, "a", MAX_CHECKPOINTS_PER_AGENT) {
        Err(Error::Validation(m)) => assert_eq!(
            m,
            "Agent a already has 10 checkpoints (max 10). Please delete old checkpoints first."
        ),
        _ => panic!("expected Validation"),
    }
    match check_can_create(&s, "nobody", 0) {
        Err(Error::AgentNotFound(n)) => assert_eq!(n, "nobody"),
        _ => panic!("expected AgentNotFound"),
    }
}

#[test]
fn checkpoint_ids_carry_time_and_uuid_prefix() {
    assert_eq!(
        checkpoint_id("20240102030405", "0123abcd-ef45-6789-abcd-ef0123456789"),
        "cp_20240102030405_0123abcd"
    );
}

#[test]
fn rollback_only_onto_the_checkpoints_agent() {
    assert!(check_rollback("a", "a", "cp1").is_ok());
    match check_rollback("a", "b", "cp1") {
        Err(Error::Validation(m)) => assert_eq!(m, "Checkpoint cp1 is for agent a, not b"),
        _ => panic!("expected Validation"),
    }
}

#[test]
fn restoring_puts_back_the_saved_agent() {
    let saved = one_agent();
    let mut current = one_agent();
    current.set_agent_enabled("a", false, "t5".to_string()).unwrap();
    restore_agent_config(&mut current, &saved, "a");
    let a = current.agents.get("a").unwrap();
    assert!(a.enabled);
    assert_eq!(a.updated_at, "t0");
    let before = current.agents.len();
    restore_agent_config(&mut current, &saved, "absent");
    assert_eq!(current.agents.len(), before);
}

#[test]
fn cloning_adds_a_fresh_agent() {
    let saved = one_agent();
    let mut current = one_agent();
    clone_into_state(&mut current, &saved, "a", "b", "tok2".to_string(), "t9".to_string()).unwrap();
    let b = current.agents.get("b").unwrap();
    assert_eq!(b.container_ip, "10.1.2.2");
    assert_eq!(b.host_ip, "10.1.2.1");
    assert_eq!(b.forgejo_username, Some("b".to_string()));
    assert_eq!(b.internal_token, "tok2");
    match clone_into_state(&mut current, &saved, "a", "b", "x".to_string(), "t".to_string()) {
        Err(Error::AgentAlreadyExists(n)) => assert_eq!(n, "b"),
        _ => panic!("expected AgentAlreadyExists"),
    }
    match clone_into_state(&mut current, &saved, "zz", "c", "x".to_string(), "t".to_string()) {
        Err(Error::AgentNotFound(n)) => assert_eq!(n, "zz"),
        _ => panic!("expected AgentNotFound"),
    }
    assert_eq!(current.agents.len(), 2);
}

#[test]
fn prepared_checkpoints_name_their_snapshot() {
    let s = one_agent();
    let m = CheckpointManager::new("/data", "/dev/sda2", "/home");
    assert_eq!(m.checkpoints_dir, "/data/checkpoints");
    let meta = m
        .prepare_checkpoint(&s, "a", "before upgrade", 0, "20240102_030405", "9f3c2a1b-0d4e-4f5a-8b6c-7d8e9f0a1b2c", "t1".to_string())
        .unwrap();
    assert_eq!(meta.id, "cp_20240102_030405_9f3c2a1b");
    let id: Vec<char> = meta.id.chars().collect();
    assert_eq!(id.len(), 3 + 8 + 1 + 6 + 1 + 8);
    assert!(id[3..11].iter().all(|c| c.is_ascii_digit()));
    assert_eq!(id[11], '_');
    assert!(id[12..18].iter().all(|c| c.is_ascii_digit()));
    assert_eq!(id[18], '_');
    assert!(id[19..].iter().all(|c| c.is_ascii_digit() || ('a'..='f').contains(c)));
    assert_eq!(meta.agent_name, "a");
    assert_eq!(meta.description, "before upgrade");
    assert_eq!(meta.created_at, "t1");
    assert_eq!(meta.btrfs_snapshot, format!("@snapshots/{}", meta.id));
    match m.prepare_checkpoint(&s, "a", "", MAX_CHECKPOINTS_PER_AGENT, "20240102_030405", "0123456789", "t1".to_string()) {
        Err(Error::Validation(msg)) => {
            assert_eq!(msg, "Agent a already has 10 checkpoints (max 10). Please delete old checkpoints first.")
        }
        _ => panic!("expected the limit"),
    }
    match m.prepare_checkpoint(&s, "ghost", "", 0, "20240102_030405", "0123456789", "t1".to_string()) {
        Err(Error::AgentNotFound(n)) => assert_eq!(n, "ghost"),
        _ => panic!("expected AgentNotFound"),
    }
    let other = m.prepare_checkpoint(&s, "a", "", 1, "20240102_030406", "abcdef0123456789", "t2".to_string()).unwrap();
    assert_eq!(other.id, "cp_20240102_030406_abcdef01");
    assert_ne!(meta.id, other.id);
}

#[test]
fn listed_checkpoints_are_newest_first() {
    let found = vec![
        meta("c1", "a", "2024-01-02"),
        meta("c2", "b", "2024-01-05"),
        meta("c3", "a", "2024-01-01"),
        meta("c4", "a", "2024-01-03"),
    ];
    let all = StateManager::select_checkpoints(found, None);
    let ids: Vec<&str> = all.iter().map(|m| m.id.as_str()).collect();
    assert_eq!(ids, vec!["c2", "c4", "c1", "c3"]);
    let found = vec![meta("c1", "a", "2024-01-02"), meta("c2", "b", "2024-01-05"), meta("c4", "a", "2024-01-03")];
    let of_a = StateManager::select_checkpoints(found, Some("a"));
    let ids: Vec<&str> = of_a.iter().map(|m| m.id.as_str()).collect();
    assert_eq!(ids, vec!["c4", "c1"]);
}

#[test]
fn container_snapshot_results_and_copies() {
    assert!(operation_result("create", None).is_ok());
    assert!(operation_result("create", Some("")).is_ok());
    match operation_result("restore", Some("no such snapshot")) {
        Err(Error::Config(m)) => assert_eq!(m, "Failed to restore snapshot: no such snapshot"),
        _ => panic!("expected Config"),
    }
    assert_eq!(copy_command("a", "cp1", "b"), "incus copy a/cp1 b");
    let meta = ContainerCheckpoints::new_meta("cp1".to_string(), "a", "d", "t".to_string());
    assert_eq!(meta.snapshot_ref, "incus-snapshot:cp1");
}

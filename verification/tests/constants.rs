use cerebrate::agent_manager::{AGENT_LABEL_KEY, AGENT_LABEL_VALUE};
use cerebrate::btrfs::{AGENTS_SUBVOL, SNAPSHOTS_SUBVOL};
use cerebrate::checkpoint::MAX_CHECKPOINTS_PER_AGENT;

#[test]
fn test_constants() {
    assert_eq!(AGENTS_SUBVOL, "@agents");
    assert_eq!(SNAPSHOTS_SUBVOL, "@snapshots");
}

#[test]
fn test_agent_label_constants() {
    assert_eq!(AGENT_LABEL_KEY, "user.openzerg.type");
    assert_eq!(AGENT_LABEL_VALUE, "agent");
}

#[test]
fn test_max_checkpoints_constant() {
    assert_eq!(MAX_CHECKPOINTS_PER_AGENT, 10);
}

#[test]
fn swarm_checkpoint_limit_is_the_same() {
    assert_eq!(cerebrate::swarm::checkpoint::MAX_CHECKPOINTS_PER_AGENT, 10);
}

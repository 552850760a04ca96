use cerebrate::btrfs::BtrfsManager;
use tempfile::tempdir;

fn path_str(p: &std::path::Path) -> &str {
    p.to_str().unwrap()
}

#[test]
fn test_btrfs_manager_new() {
    let dir = tempdir().unwrap();
    let manager = BtrfsManager::new("/dev/sda1", path_str(dir.path()));
    assert_eq!(manager.btrfs_device, "/dev/sda1");
    assert_eq!(std::path::Path::new(&manager.mount_point), dir.path());
}

#[test]
fn test_agent_subvol_path() {
    let dir = tempdir().unwrap();
    let manager = BtrfsManager::new("/dev/sda1", path_str(dir.path()));
    assert_eq!(manager.agent_subvol_path("my-agent"), "@agents/my-agent");
}

#[test]
fn test_snapshot_subvol_path() {
    let dir = tempdir().unwrap();
    let manager = BtrfsManager::new("/dev/sda1", path_str(dir.path()));
    assert_eq!(manager.snapshot_subvol_path("cp-123"), "@snapshots/cp-123");
}

#[test]
fn test_agent_mount_path() {
    let dir = tempdir().unwrap();
    let manager = BtrfsManager::new("/dev/sda1", path_str(dir.path()));
    let path = manager.agent_mount_path("test-agent");
    assert_eq!(std::path::PathBuf::from(path), dir.path().join("@agents").join("test-agent"));
}

#[test]
fn test_agent_subvol_path_special_chars() {
    let dir = tempdir().unwrap();
    let manager = BtrfsManager::new("/dev/sda1", path_str(dir.path()));
    assert_eq!(manager.agent_subvol_path("agent-123_test"), "@agents/agent-123_test");
}

#[test]
fn test_snapshot_subvol_path_with_uuid() {
    let dir = tempdir().unwrap();
    let manager = BtrfsManager::new("/dev/sda1", path_str(dir.path()));
    let path = manager.snapshot_subvol_path("cp_20240101_abc123");
    assert_eq!(path, "@snapshots/cp_20240101_abc123");
}

#[test]
fn test_agent_mount_path_nested() {
    let dir = tempdir().unwrap();
    let manager = BtrfsManager::new("/dev/nvme0n1", path_str(dir.path()));
    let path = manager.agent_mount_path("nested-agent");
    assert!(path.contains("@agents"));
    assert!(path.contains("nested-agent"));
}

#[test]
fn test_multiple_managers() {
    let dir1 = tempdir().unwrap();
    let dir2 = tempdir().unwrap();
    let manager1 = BtrfsManager::new("/dev/sda1", path_str(dir1.path()));
    let manager2 = BtrfsManager::new("/dev/sda2", path_str(dir2.path()));
    assert_ne!(manager1.mount_point, manager2.mount_point);
    assert_ne!(manager1.btrfs_device, manager2.btrfs_device);
}

#[test]
fn test_agent_subvol_path_multiple() {
    let dir = tempdir().unwrap();
    let manager = BtrfsManager::new("/dev/sda1", path_str(dir.path()));
    assert_eq!(manager.agent_subvol_path("agent1"), "@agents/agent1");
    assert_eq!(manager.agent_subvol_path("agent2"), "@agents/agent2");
    assert_eq!(manager.agent_subvol_path("my-agent"), "@agents/my-agent");
}

#[test]
fn test_snapshot_subvol_path_multiple() {
    let dir = tempdir().unwrap();
    let manager = BtrfsManager::new("/dev/sda1", path_str(dir.path()));
    assert_eq!(manager.snapshot_subvol_path("cp1"), "@snapshots/cp1");
    assert_eq!(manager.snapshot_subvol_path("cp2"), "@snapshots/cp2");
}

#[test]
fn test_agent_mount_path_different_devices() {
    let dir = tempdir().unwrap();
    let manager1 = BtrfsManager::new("/dev/sda1", path_str(dir.path()));
    let manager2 = BtrfsManager::new("/dev/nvme0n1", path_str(dir.path()));
    assert_eq!(manager1.agent_mount_path("agent"), manager2.agent_mount_path("agent"));
}

#[test]
fn btrfs_steps_name_the_subvolumes_and_failures() {
    let m = BtrfsManager::new("/dev/sda1", "/mnt");
    let s = m.create_agent_subvolume("a1");
    assert_eq!(s.args, vec!["subvolume", "create", "@agents/a1"]);
    assert!(s.fatal);
    assert_eq!(s.message, "Failed to create btrfs subvolume for agent a1");
    let d = m.delete_agent_subvolume("a1");
    assert_eq!(d.args, vec!["subvolume", "delete", "@agents/a1"]);
    assert!(!d.fatal);
    let snap = m.create_snapshot("a1", "cp1", false);
    assert_eq!(snap.len(), 2);
    assert_eq!(snap[0].args, vec!["subvolume", "create", "@snapshots"]);
    assert_eq!(snap[0].message, "Failed to create snapshots subvolume");
    assert_eq!(snap[1].args, vec!["subvolume", "snapshot", "@agents/a1", "@snapshots/cp1"]);
    assert_eq!(snap[1].message, "Failed to create snapshot cp1");
    assert_eq!(m.create_snapshot("a1", "cp1", true).len(), 1);
    let r = m.restore_snapshot("cp1", "a1");
    assert_eq!(r[1].args, vec!["subvolume", "snapshot", "@snapshots/cp1", "@agents/a1"]);
    assert_eq!(r[1].message, "Failed to restore snapshot cp1 to agent a1");
    let c = m.clone_snapshot_to_agent("cp1", "b1");
    assert_eq!(c.args, vec!["subvolume", "snapshot", "@snapshots/cp1", "@agents/b1"]);
    assert_eq!(c.message, "Failed to clone snapshot to agent b1");
    assert_eq!(m.delete_snapshot("cp1").message, "Failed to delete snapshot cp1");
    assert!(m.ensure_agents_subvolume(true).is_empty());
    assert_eq!(m.ensure_agents_subvolume(false)[0].args, vec!["subvolume", "create", "@agents"]);
    assert_eq!(m.agents_dir(), "/mnt/@agents");
    assert_eq!(m.snapshots_dir(), "/mnt/@snapshots");
}

//! Btrfs subvolumes of agents and their snapshots: where they live, and the
//! `btrfs` commands that create, snapshot, restore and delete them.

use vstd::prelude::*;
use crate::paths::{join_path, path_join};
use crate::text::{concat2, concat3};

verus! {

/// The subvolume that holds one subvolume per agent.
pub const AGENTS_SUBVOL: &'static str = "@agents";

/// The subvolume that holds the checkpoint snapshots.
pub const SNAPSHOTS_SUBVOL: &'static str = "@snapshots";

/// The agents' subvolumes on one btrfs device, mounted at `mount_point`.
pub struct BtrfsManager {
    pub btrfs_device: String,
    pub mount_point: String,
}

/// One run of `btrfs` in the mount point: its arguments, and what its failure
/// means: an error with `message` where `fatal` holds, else a warning.
pub struct BtrfsStep {
    pub args: Vec<String>,
    pub fatal: bool,
    pub message: String,
}

/// The arguments of a step as character sequences.
pub open spec fn args_view(args: Seq<String>) -> Seq<Seq<char>> {
    args.map_values(|s: String| s@)
}

/// Whether step `s` runs `btrfs` with `args` and, on failure, fails (where
/// `fatal`) or warns with `message`.
pub open spec fn step_is(s: BtrfsStep, args: Seq<Seq<char>>, fatal: bool, message: Seq<char>) -> bool {
    args_view(s.args@) == args && s.fatal == fatal && s.message@ == message
}

/// The subvolume of agent `name`, relative to the mount point.
pub open spec fn agent_subvol(name: Seq<char>) -> Seq<char> {
    "@agents"@ + seq!['/'] + name
}

/// The snapshot of checkpoint `id`, relative to the mount point.
pub open spec fn snapshot_subvol(id: Seq<char>) -> Seq<char> {
    "@snapshots"@ + seq!['/'] + id
}

fn step(args: Vec<String>, fatal: bool, message: String) -> (s: BtrfsStep)
    ensures
        s.args@ == args@,
        s.fatal == fatal,
        s.message@ == message@,
{
    BtrfsStep { args, fatal, message }
}

fn args3(a: &str, b: &str, c: String) -> (v: Vec<String>)
    ensures
        args_view(v@) == seq![a@, b@, c@],
{
    let mut v: Vec<String> = Vec::new();
    v.push(a.to_owned());
    v.push(b.to_owned());
    v.push(c);
    assert(args_view(v@) =~= seq![a@, b@, c@]);
    v
}

fn args4(a: &str, b: &str, c: String, d: String) -> (v: Vec<String>)
    ensures
        args_view(v@) == seq![a@, b@, c@, d@],
{
    let mut v: Vec<String> = Vec::new();
    v.push(a.to_owned());
    v.push(b.to_owned());
    v.push(c);
    v.push(d);
    assert(args_view(v@) =~= seq![a@, b@, c@, d@]);
    v
}

impl BtrfsManager {
    /// A manager for `btrfs_device` mounted at `mount_point`.
    pub fn new(btrfs_device: &str, mount_point: &str) -> (m: BtrfsManager)
        ensures
            m.btrfs_device@ == btrfs_device@,
            m.mount_point@ == mount_point@,
    {
        BtrfsManager { btrfs_device: btrfs_device.to_owned(), mount_point: mount_point.to_owned() }
    }

    /// `@agents/<agent_name>`.
    pub fn agent_subvol_path(&self, agent_name: &str) -> (p: String)
        ensures
            p@ == agent_subvol(agent_name@),
    {
        proof {
            reveal_strlit("/");
        }
        concat3(AGENTS_SUBVOL, "/", agent_name)
    }

    /// `@snapshots/<checkpoint_id>`.
    pub fn snapshot_subvol_path(&self, checkpoint_id: &str) -> (p: String)
        ensures
            p@ == snapshot_subvol(checkpoint_id@),
    {
        proof {
            reveal_strlit("/");
        }
        concat3(SNAPSHOTS_SUBVOL, "/", checkpoint_id)
    }

    /// Where agent `agent_name`'s subvolume is seen: the mount point joined
    /// with `@agents` and the name.
    pub fn agent_mount_path(&self, agent_name: &str) -> (p: String)
        ensures
            p@ == path_join(path_join(self.mount_point@, "@agents"@), agent_name@),
    {
        let d = join_path(self.mount_point.as_str(), AGENTS_SUBVOL);
        join_path(d.as_str(), agent_name)
    }

    /// The directory of all agents' subvolumes: the mount point joined with
    /// `@agents`.
    pub fn agents_dir(&self) -> (p: String)
        ensures
            p@ == path_join(self.mount_point@, "@agents"@),
    {
        join_path(self.mount_point.as_str(), AGENTS_SUBVOL)
    }

    /// The directory of all snapshots: the mount point joined with
    /// `@snapshots`.
    pub fn snapshots_dir(&self) -> (p: String)
        ensures
            p@ == path_join(self.mount_point@, "@snapshots"@),
    {
        join_path(self.mount_point.as_str(), SNAPSHOTS_SUBVOL)
    }

    /// Creating agent `agent_name`'s subvolume.
    pub fn create_agent_subvolume(&self, agent_name: &str) -> (s: BtrfsStep)
        ensures
            step_is(
                s,
                seq!["subvolume"@, "create"@, agent_subvol(agent_name@)],
                true,
                "Failed to create btrfs subvolume for agent "@ + agent_name@,
            ),
    {
        let path = self.agent_subvol_path(agent_name);
        let msg = concat2("Failed to create btrfs subvolume for agent ", agent_name);
        step(args3("subvolume", "create", path), true, msg)
    }

    /// Deleting agent `agent_name`'s subvolume; its failure is only warned of.
    pub fn delete_agent_subvolume(&self, agent_name: &str) -> (s: BtrfsStep)
        ensures
            step_is(
                s,
                seq!["subvolume"@, "delete"@, agent_subvol(agent_name@)],
                false,
                "Failed to delete btrfs subvolume for agent "@ + agent_name@,
            ),
    {
        let path = self.agent_subvol_path(agent_name);
        let msg = concat2("Failed to delete btrfs subvolume for agent ", agent_name);
        step(args3("subvolume", "delete", path), false, msg)
    }

    /// Snapshotting agent `agent_name` as checkpoint `checkpoint_id`: first
    /// the snapshots subvolume where its directory does not exist yet.
    pub fn create_snapshot(&self, agent_name: &str, checkpoint_id: &str, snapshots_dir_exists: bool) -> (v: Vec<BtrfsStep>)
        ensures
            v@.len() == (if snapshots_dir_exists { 1nat } else { 2nat }),
            !snapshots_dir_exists ==> step_is(
                v@[0],
                seq!["subvolume"@, "create"@, "@snapshots"@],
                true,
                "Failed to create snapshots subvolume"@,
            ),
            step_is(
                v@.last(),
                seq!["subvolume"@, "snapshot"@, agent_subvol(agent_name@), snapshot_subvol(checkpoint_id@)],
                true,
                "Failed to create snapshot "@ + checkpoint_id@,
            ),
    {
        let mut v: Vec<BtrfsStep> = Vec::new();
        if !snapshots_dir_exists {
            let dir = SNAPSHOTS_SUBVOL.to_owned();
            let msg = "Failed to create snapshots subvolume".to_owned();
            v.push(step(args3("subvolume", "create", dir), true, msg));
        }
        let src = self.agent_subvol_path(agent_name);
        let dst = self.snapshot_subvol_path(checkpoint_id);
        let msg = concat2("Failed to create snapshot ", checkpoint_id);
        v.push(step(args4("subvolume", "snapshot", src, dst), true, msg));
        v
    }

    /// Restoring agent `agent_name` from checkpoint `checkpoint_id`: deleting
    /// its subvolume, then snapshotting the checkpoint in its place.
    pub fn restore_snapshot(&self, checkpoint_id: &str, agent_name: &str) -> (v: Vec<BtrfsStep>)
        ensures
            v@.len() == 2,
            step_is(
                v@[0],
                seq!["subvolume"@, "delete"@, agent_subvol(agent_name@)],
                false,
                "Failed to delete btrfs subvolume for agent "@ + agent_name@,
            ),
            step_is(
                v@[1],
                seq!["subvolume"@, "snapshot"@, snapshot_subvol(checkpoint_id@), agent_subvol(agent_name@)],
                true,
                "Failed to restore snapshot "@ + checkpoint_id@ + " to agent "@ + agent_name@,
            ),
    {
        let mut v: Vec<BtrfsStep> = Vec::new();
        v.push(self.delete_agent_subvolume(agent_name));
        let src = self.snapshot_subvol_path(checkpoint_id);
        let dst = self.agent_subvol_path(agent_name);
        let mut m = concat3("Failed to restore snapshot ", checkpoint_id, " to agent ");
        m.append(agent_name);
        v.push(step(args4("subvolume", "snapshot", src, dst), true, m));
        v
    }

    /// Deleting checkpoint `checkpoint_id`'s snapshot; its failure is only
    /// warned of.
    pub fn delete_snapshot(&self, checkpoint_id: &str) -> (s: BtrfsStep)
        ensures
            step_is(
                s,
                seq!["subvolume"@, "delete"@, snapshot_subvol(checkpoint_id@)],
                false,
                "Failed to delete snapshot "@ + checkpoint_id@,
            ),
    {
        let path = self.snapshot_subvol_path(checkpoint_id);
        let msg = concat2("Failed to delete snapshot ", checkpoint_id);
        step(args3("subvolume", "delete", path), false, msg)
    }

    /// Snapshotting checkpoint `checkpoint_id` as the subvolume of a new agent.
    pub fn clone_snapshot_to_agent(&self, checkpoint_id: &str, new_agent_name: &str) -> (s: BtrfsStep)
        ensures
            step_is(
                s,
                seq!["subvolume"@, "snapshot"@, snapshot_subvol(checkpoint_id@), agent_subvol(new_agent_name@)],
                true,
                "Failed to clone snapshot to agent "@ + new_agent_name@,
            ),
    {
        let src = self.snapshot_subvol_path(checkpoint_id);
        let dst = self.agent_subvol_path(new_agent_name);
        let msg = concat2("Failed to clone snapshot to agent ", new_agent_name);
        step(args4("subvolume", "snapshot", src, dst), true, msg)
    }

    /// Creating the agents subvolume where its directory does not exist yet.
    pub fn ensure_agents_subvolume(&self, agents_dir_exists: bool) -> (v: Vec<BtrfsStep>)
        ensures
            agents_dir_exists ==> v@.len() == 0,
            !agents_dir_exists ==> v@.len() == 1 && step_is(
                v@[0],
                seq!["subvolume"@, "create"@, "@agents"@],
                true,
                "Failed to create agents subvolume"@,
            ),
    {
        let mut v: Vec<BtrfsStep> = Vec::new();
        if !agents_dir_exists {
            let dir = AGENTS_SUBVOL.to_owned();
            let msg = "Failed to create agents subvolume".to_owned();
            v.push(step(args3("subvolume", "create", dir), true, msg));
        }
        v
    }
}

} // verus!

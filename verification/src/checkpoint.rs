//! Checkpoints of agents as Incus snapshots: what a checkpoint records, and
//! what a finished snapshot operation means.

use vstd::prelude::*;
use crate::models::Error;
use crate::paths::{join_path, path_join};
use crate::state::StateManager;
use crate::text::{concat2, push_str, string_of};

verus! {

/// How many checkpoints one agent may keep.
pub const MAX_CHECKPOINTS_PER_AGENT: usize = 10;

/// Checkpoints kept below a data directory, with their snapshots in Incus.
pub struct CheckpointManager {
    pub state_manager: StateManager,
    pub checkpoints_dir: String,
}

/// What a checkpoint records besides the saved state: its Incus snapshot.
pub struct CheckpointMeta {
    pub id: String,
    pub agent_name: String,
    pub description: String,
    pub created_at: String,
    pub snapshot_ref: String,
}

/// The reference of checkpoint `id`'s snapshot: `incus-snapshot:<id>`.
pub open spec fn snapshot_ref_of(id: Seq<char>) -> Seq<char> {
    "incus-snapshot:"@ + id
}

/// What a finished snapshot operation (`what`: create, restore, delete)
/// that reported `err` comes to: a failure where the report is not empty.
pub fn operation_result(what: &str, err: Option<&str>) -> (r: Result<(), Error>)
    ensures
        match err {
            Some(e) if e@.len() > 0 => r matches Err(Error::Config(m)) && m@ == "Failed to "@ + what@
                + " snapshot: "@ + e@,
            _ => r is Ok,
        },
{
    match err {
        Some(e) => {
            if e.unicode_len() > 0 {
                let mut v: Vec<char> = Vec::new();
                push_str(&mut v, "Failed to ");
                push_str(&mut v, what);
                push_str(&mut v, " snapshot: ");
                push_str(&mut v, e);
                Err(Error::Config(string_of(&v)))
            } else {
                Ok(())
            }
        },
        None => Ok(()),
    }
}

/// The command that copies checkpoint `checkpoint_id` of agent `owner` into
/// the container of `new_agent_name`: `incus copy <owner>/<id> <new name>`.
pub fn copy_command(owner: &str, checkpoint_id: &str, new_agent_name: &str) -> (c: String)
    ensures
        c@ == "incus copy "@ + owner@ + "/"@ + checkpoint_id@ + " "@ + new_agent_name@,
{
    let mut v: Vec<char> = Vec::new();
    push_str(&mut v, "incus copy ");
    push_str(&mut v, owner);
    push_str(&mut v, "/");
    push_str(&mut v, checkpoint_id);
    push_str(&mut v, " ");
    push_str(&mut v, new_agent_name);
    string_of(&v)
}

impl CheckpointManager {
    /// The checkpoints below `data_dir`, in its `checkpoints` directory.
    pub fn new(data_dir: &str) -> (m: CheckpointManager)
        ensures
            m.state_manager.data_dir() == data_dir@,
            m.checkpoints_dir@ == path_join(data_dir@, "checkpoints"@),
    {
        CheckpointManager { state_manager: StateManager::new(data_dir), checkpoints_dir: join_path(data_dir, "checkpoints") }
    }

    /// The directory of checkpoint `checkpoint_id`.
    pub fn checkpoint_dir(&self, checkpoint_id: &str) -> (p: String)
        ensures
            p@ == path_join(self.checkpoints_dir@, checkpoint_id@),
    {
        join_path(self.checkpoints_dir.as_str(), checkpoint_id)
    }

    /// What checkpoint `id` of agent `agent_name`, taken at `created_at`,
    /// records: its snapshot is `incus-snapshot:<id>`.
    pub fn new_meta(id: String, agent_name: &str, description: &str, created_at: String) -> (m: CheckpointMeta)
        ensures
            m.id == id,
            m.agent_name@ == agent_name@,
            m.description@ == description@,
            m.created_at == created_at,
            m.snapshot_ref@ == snapshot_ref_of(id@),
    {
        let r = concat2("incus-snapshot:", id.as_str());
        CheckpointMeta {
            id,
            agent_name: agent_name.to_owned(),
            description: description.to_owned(),
            created_at,
            snapshot_ref: r,
        }
    }
}

} // verus!

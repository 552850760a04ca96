//! The checkpoint records of the management API.

use vstd::prelude::*;
use crate::models::CheckpointMeta;

verus! {

/// What the API shows of a checkpoint.
pub struct Checkpoint {
    pub id: String,
    pub agent_name: String,
    pub description: String,
    pub created_at: String,
}

/// A request to take a checkpoint.
pub struct CreateCheckpointRequest {
    pub description: Option<String>,
}

/// A request to roll an agent back to a checkpoint.
pub struct RollbackRequest {
    pub checkpoint_id: String,
}

/// A request to clone a checkpoint into a new agent.
pub struct CloneRequest {
    pub new_name: String,
}

impl Checkpoint {
    /// What the API shows of the checkpoint `m` records.
    pub fn of(m: &CheckpointMeta) -> (c: Checkpoint)
        ensures
            c.id == m.id,
            c.agent_name == m.agent_name,
            c.description == m.description,
            c.created_at == m.created_at,
    {
        Checkpoint {
            id: m.id.clone(),
            agent_name: m.agent_name.clone(),
            description: m.description.clone(),
            created_at: m.created_at.clone(),
        }
    }
}

impl CreateCheckpointRequest {
    /// The description of the checkpoint: the one given, or the empty text.
    pub fn description_or_empty(&self) -> (d: String)
        ensures
            match self.description {
                Some(x) => d == x,
                None => d@ == Seq::<char>::empty(),
            },
    {
        match &self.description {
            Some(x) => x.clone(),
            None => String::new(),
        }
    }
}

} // verus!

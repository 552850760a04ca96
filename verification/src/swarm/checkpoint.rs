//! Checkpoints of agents on btrfs: when one may be taken, what it is called,
//! what it records, and what rolling back to it and cloning it do to the
//! state.

use vstd::prelude::*;
use crate::btrfs::{snapshot_subvol, BtrfsManager};
use crate::ids::{is_compact_stamp, is_hyphenated_uuid, is_lower_hex};
use crate::settings::is_digit;
use crate::models::{Agent, CheckpointMeta, Error, State};
use crate::paths::{join_path, path_join};
use crate::state::StateManager;
use crate::store::is_new_agent;
use crate::text::{decimal, push_decimal, push_str, str_eq, string_of};

verus! {

/// How many checkpoints one agent may keep.
pub const MAX_CHECKPOINTS_PER_AGENT: usize = 10;

/// Checkpoints kept below a data directory, with their snapshots on btrfs.
pub struct CheckpointManager {
    pub state_manager: StateManager,
    pub btrfs_manager: BtrfsManager,
    pub checkpoints_dir: String,
}

/// The refusal of a checkpoint for agent `agent`, which has `count` already.
pub open spec fn limit_message(agent: Seq<char>, count: nat) -> Seq<char> {
    "Agent "@ + agent + " already has "@ + decimal(count) + " checkpoints (max "@ + decimal(10)
        + "). Please delete old checkpoints first."@
}

/// The name of a checkpoint taken at `timestamp` with random `uuid`:
/// `cp_<timestamp>_<first eight characters of uuid>`.
pub open spec fn checkpoint_id_of(timestamp: Seq<char>, uuid: Seq<char>) -> Seq<char> {
    "cp_"@ + timestamp + "_"@ + uuid.take(8)
}

/// The refusal of a rollback of agent `agent` to checkpoint `id`, which was
/// taken of agent `owner`.
pub open spec fn wrong_agent_message(id: Seq<char>, owner: Seq<char>, agent: Seq<char>) -> Seq<char> {
    "Checkpoint "@ + id + " is for agent "@ + owner + ", not "@ + agent
}

/// Whether agent `agent` may get another checkpoint, having `count`: it must
/// exist and have fewer than the maximum.
pub fn check_can_create(state: &State, agent_name: &str, count: usize) -> (r: Result<(), Error>)
    requires
        state.wf(),
    ensures
        !state.agents@.contains_key(agent_name@) ==> (r matches Err(Error::AgentNotFound(n)) && n@ == agent_name@),
        state.agents@.contains_key(agent_name@) && count >= MAX_CHECKPOINTS_PER_AGENT ==> (r matches Err(
            Error::Validation(m),
        ) && m@ == limit_message(agent_name@, count as nat)),
        state.agents@.contains_key(agent_name@) && count < MAX_CHECKPOINTS_PER_AGENT ==> r is Ok,
{
    if !state.agents.contains_key(agent_name) {
        return Err(Error::AgentNotFound(agent_name.to_owned()));
    }
    if count >= MAX_CHECKPOINTS_PER_AGENT {
        let mut v: Vec<char> = Vec::new();
        push_str(&mut v, "Agent ");
        push_str(&mut v, agent_name);
        push_str(&mut v, " already has ");
        push_decimal(&mut v, count);
        push_str(&mut v, " checkpoints (max ");
        push_decimal(&mut v, MAX_CHECKPOINTS_PER_AGENT);
        push_str(&mut v, "). Please delete old checkpoints first.");
        assert(v@ =~= limit_message(agent_name@, count as nat));
        return Err(Error::Validation(string_of(&v)));
    }
    Ok(())
}

/// `cp_<timestamp>_<first eight characters of uuid>`.
pub fn checkpoint_id(timestamp: &str, uuid: &str) -> (id: String)
    requires
        uuid@.len() >= 8,
    ensures
        id@ == checkpoint_id_of(timestamp@, uuid@),
{
    let u = crate::text::chars_of(uuid);
    let mut v: Vec<char> = Vec::new();
    push_str(&mut v, "cp_");
    push_str(&mut v, timestamp);
    push_str(&mut v, "_");
    let mut k: usize = 0;
    let ghost base = v@;
    while k < 8
        invariant
            k <= 8,
            u@ == uuid@,
            uuid@.len() >= 8,
            v@ == base + uuid@.take(k as int),
        decreases 8 - k,
    {
        v.push(u[k]);
        assert(uuid@.take(k + 1) =~= uuid@.take(k as int).push(uuid@[k as int]));
        k = k + 1;
    }
    assert(v@ =~= checkpoint_id_of(timestamp@, uuid@));
    string_of(&v)
}

/// Whether checkpoint `checkpoint_id`, taken of agent `owner`, may be rolled
/// back onto agent `agent_name`: only onto its own agent.
pub fn check_rollback(owner: &str, agent_name: &str, checkpoint_id: &str) -> (r: Result<(), Error>)
    ensures
        owner@ == agent_name@ ==> r is Ok,
        owner@ != agent_name@ ==> (r matches Err(Error::Validation(m)) && m@ == wrong_agent_message(
            checkpoint_id@,
            owner@,
            agent_name@,
        )),
{
    if str_eq(owner, agent_name) {
        return Ok(());
    }
    let mut v: Vec<char> = Vec::new();
    push_str(&mut v, "Checkpoint ");
    push_str(&mut v, checkpoint_id);
    push_str(&mut v, " is for agent ");
    push_str(&mut v, owner);
    push_str(&mut v, ", not ");
    push_str(&mut v, agent_name);
    assert(v@ =~= wrong_agent_message(checkpoint_id@, owner@, agent_name@));
    Err(Error::Validation(string_of(&v)))
}

/// Puts back the configuration agent `agent_name` had when the checkpoint
/// state `saved` was taken; where it had none there, nothing changes.
pub fn restore_agent_config(current: &mut State, saved: &State, agent_name: &str)
    requires
        old(current).wf(),
        saved.wf(),
    ensures
        final(current).wf(),
        final(current).same_except_agents(&*old(current)),
        saved.agents@.contains_key(agent_name@) ==> final(current).agents@ == old(current).agents@.insert(
            agent_name@,
            saved.agents@[agent_name@],
        ),
        !saved.agents@.contains_key(agent_name@) ==> *final(current) == *old(current),
{
    match saved.agents.get(agent_name) {
        Some(a) => {
            let copy = a.duplicate();
            current.agents.insert(agent_name.to_owned(), copy);
        },
        None => {},
    }
}

/// Adds agent `new_agent_name` as a clone of a checkpoint of agent `owner`
/// whose saved state is `saved`: the name must be free and the checkpoint's
/// agent must be in the saved state. The new agent is made as `create_agent` makes one,
/// with its own name as its Forgejo account.
pub fn clone_into_state(
    current: &mut State,
    saved: &State,
    owner: &str,
    new_agent_name: &str,
    internal_token: String,
    now: String,
) -> (r: Result<(), Error>)
    requires
        old(current).wf(),
        saved.wf(),
        old(current).agents.count() < usize::MAX,
    ensures
        final(current).wf(),
        old(current).agents@.contains_key(new_agent_name@) ==> (r matches Err(Error::AgentAlreadyExists(n)) && n@
            == new_agent_name@ && *final(current) == *old(current)),
        !old(current).agents@.contains_key(new_agent_name@) && !saved.agents@.contains_key(owner@) ==> (r matches Err(
            Error::AgentNotFound(n),
        ) && n@ == owner@ && *final(current) == *old(current)),
        !old(current).agents@.contains_key(new_agent_name@) && saved.agents@.contains_key(owner@) ==> {
            &&& r is Ok
            &&& final(current).agents@.contains_key(new_agent_name@)
            &&& is_new_agent(
                final(current).agents@[new_agent_name@],
                old(current).defaults.container_subnet_base@,
                old(current).agents.count() + 1,
                Some(new_agent_name@),
                internal_token@,
                now@,
            )
            &&& final(current).agents@.remove(new_agent_name@) == old(current).agents@
            &&& final(current).same_except_agents(&*old(current))
        },
{
    if current.agents.contains_key(new_agent_name) {
        return Err(Error::AgentAlreadyExists(new_agent_name.to_owned()));
    }
    if !saved.agents.contains_key(owner) {
        return Err(Error::AgentNotFound(owner.to_owned()));
    }
    let username = Some(new_agent_name.to_owned());
    current.create_agent(new_agent_name.to_owned(), username, internal_token, now)
}

impl CheckpointManager {
    /// The checkpoints below `data_dir`, with snapshots on `btrfs_device`
    /// mounted at `btrfs_mount`.
    pub fn new(data_dir: &str, btrfs_device: &str, btrfs_mount: &str) -> (m: CheckpointManager)
        ensures
            m.state_manager.data_dir() == data_dir@,
            m.btrfs_manager.btrfs_device@ == btrfs_device@,
            m.btrfs_manager.mount_point@ == btrfs_mount@,
            m.checkpoints_dir@ == path_join(data_dir@, "checkpoints"@),
    {
        CheckpointManager {
            state_manager: StateManager::new(data_dir),
            btrfs_manager: BtrfsManager::new(btrfs_device, btrfs_mount),
            checkpoints_dir: join_path(data_dir, "checkpoints"),
        }
    }

    /// What checkpoint `id` of agent `agent_name` records, taken at
    /// `created_at`: its snapshot is `@snapshots/<id>`.
    pub fn new_meta(&self, id: String, agent_name: &str, description: &str, created_at: String) -> (m: CheckpointMeta)
        ensures
            m.id@ == id@,
            m.agent_name@ == agent_name@,
            m.description@ == description@,
            m.created_at@ == created_at@,
            m.btrfs_snapshot@ == snapshot_subvol(id@),
    {
        let snapshot = self.btrfs_manager.snapshot_subvol_path(id.as_str());
        CheckpointMeta {
            id,
            agent_name: agent_name.to_owned(),
            description: description.to_owned(),
            created_at,
            btrfs_snapshot: snapshot,
        }
    }

    /// The record of a new checkpoint of agent `agent_name`, which has `count`
    /// checkpoints already, named after `timestamp` (the current time as
    /// `%Y%m%d_%H%M%S`) and the first eight characters of `uuid` (a fresh
    /// random UUID): refused as `check_can_create` refuses it.
    pub fn prepare_checkpoint(
        &self,
        state: &State,
        agent_name: &str,
        description: &str,
        count: usize,
        timestamp: &str,
        uuid: &str,
        created_at: String,
    ) -> (r: Result<CheckpointMeta, Error>)
        requires
            state.wf(),
            uuid@.len() >= 8,
        ensures
            r is Err <==> check_can_create_refuses(state, agent_name@, count),
            r matches Err(e) ==> (!state.agents@.contains_key(agent_name@) ==> (e matches Error::AgentNotFound(n) && n@ == agent_name@)),
            r matches Err(e) ==> (state.agents@.contains_key(agent_name@) ==> (e matches Error::Validation(m) && m@ == limit_message(agent_name@, count as nat))),
            r matches Ok(m) ==> {
                &&& m.id@ == checkpoint_id_of(timestamp@, uuid@)
                &&& m.agent_name@ == agent_name@
                &&& m.description@ == description@
                &&& m.created_at@ == created_at@
                &&& m.btrfs_snapshot@ == snapshot_subvol(m.id@)
            },
    {
        match check_can_create(state, agent_name, count) {
            Err(e) => Err(e),
            Ok(()) => {
                let id = checkpoint_id(timestamp, uuid);
                Ok(self.new_meta(id, agent_name, description, created_at))
            },
        }
    }
}

/// Whether `id` has the shape of a checkpoint id: `cp_`, eight digits, `_`,
/// six digits, `_` and eight lowercase hexadecimal digits.
pub open spec fn is_checkpoint_id_shape(id: Seq<char>) -> bool {
    &&& id.len() == 27
    &&& id.take(3) == "cp_"@
    &&& id[11] == '_' && id[18] == '_'
    &&& forall|i: int| 3 <= i < 18 && i != 11 ==> is_digit(#[trigger] id[i])
    &&& forall|i: int| 19 <= i < 27 ==> is_lower_hex(#[trigger] id[i])
}

/// A checkpoint named after a time stamp of a four-digit year and a UUID in
/// hyphenated form has an id of the shape `cp_DDDDDDDD_DDDDDD_hhhhhhhh`.
pub proof fn law_checkpoint_id_shape(timestamp: Seq<char>, uuid: Seq<char>)
    requires
        is_compact_stamp(timestamp),
        timestamp.len() == 15,
        is_hyphenated_uuid(uuid),
    ensures
        is_checkpoint_id_shape(checkpoint_id_of(timestamp, uuid)),
{
    reveal_strlit("cp_");
    reveal_strlit("_");
    let id = checkpoint_id_of(timestamp, uuid);
    assert(id.take(3) =~= "cp_"@);
    assert forall|i: int| 3 <= i < 18 && i != 11 implies is_digit(#[trigger] id[i]) by {
        assert(id[i] == timestamp[i - 3]);
    }
    assert forall|i: int| 19 <= i < 27 implies is_lower_hex(#[trigger] id[i]) by {
        assert(id[i] == uuid[i - 19]);
    }
}

/// Whether `check_can_create` refuses a checkpoint of `agent`, which has
/// `count`.
pub open spec fn check_can_create_refuses(state: &State, agent: Seq<char>, count: usize) -> bool {
    !state.agents@.contains_key(agent) || count >= MAX_CHECKPOINTS_PER_AGENT
}

} // verus!

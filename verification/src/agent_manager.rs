//! Agent containers on Incus: which instances are agents, what each agent's
//! container needs to be brought in line with the state, and which
//! containers are left over.

use vstd::prelude::*;
use crate::models::State;
use crate::text::{names_of, str_eq};

verus! {

/// The configuration key that marks an instance as an agent container.
pub const AGENT_LABEL_KEY: &'static str = "user.openzerg.type";

/// The value of that key on agent containers.
pub const AGENT_LABEL_VALUE: &'static str = "agent";

/// The agent containers kept for a data directory.
pub struct AgentManager {
    pub data_dir: String,
}

/// What the manager reads of an Incus instance: its name, status and
/// configuration.
pub struct Instance {
    pub name: String,
    pub status: String,
    pub config: Option<Vec<(String, String)>>,
}

/// What to do to an agent's container.
#[derive(Debug, PartialEq, Eq)]
pub enum ContainerAction {
    /// Create it with the default profile and the agent label, and start it
    /// where `start` holds.
    Create { start: bool },
    /// Start it.
    Start,
    /// Stop it.
    Stop,
    /// Leave it.
    Keep,
}

/// What to do to a container that no agent of the state has.
#[derive(Debug, PartialEq, Eq)]
pub enum Removal {
    /// Force it to stop, then delete it.
    StopAndDelete(String),
    /// Delete it.
    Delete(String),
}

/// The value configuration `config` holds under `key`: the first pair with
/// that key.
pub open spec fn config_value_from(config: Seq<(String, String)>, key: Seq<char>, i: int) -> Option<Seq<char>>
    decreases config.len() - i,
{
    if i < 0 || i >= config.len() {
        None
    } else if config[i].0@ == key {
        Some(config[i].1@)
    } else {
        config_value_from(config, key, i + 1)
    }
}

/// Whether an instance with configuration `config` is an agent container: its
/// agent label has the agent value.
pub open spec fn is_agent_config(config: Option<Vec<(String, String)>>) -> bool {
    match config {
        Some(c) => config_value_from(c@, "user.openzerg.type"@, 0) == Some("agent"@),
        None => false,
    }
}

/// What an existing container of an agent needs: to start where the agent is
/// enabled and the container is not running, to stop where the agent is
/// disabled and it runs.
pub open spec fn update_action(enabled: bool, running: bool) -> ContainerAction {
    if enabled && !running {
        ContainerAction::Start
    } else if !enabled && running {
        ContainerAction::Stop
    } else {
        ContainerAction::Keep
    }
}

impl AgentManager {
    /// The agent containers of data directory `data_dir`.
    pub fn new(data_dir: &str) -> (m: AgentManager)
        ensures
            m.data_dir@ == data_dir@,
    {
        AgentManager { data_dir: data_dir.to_owned() }
    }

    /// Whether `instance` is an agent container.
    #[verifier::loop_isolation(false)]
    pub fn is_agent_container(instance: &Instance) -> (b: bool)
        ensures
            b == is_agent_config(instance.config),
    {
        match &instance.config {
            None => false,
            Some(c) => {
                let mut i: usize = 0;
                while i < c.len()
                    invariant
                        i <= c@.len(),
                        config_value_from(c@, "user.openzerg.type"@, 0) == config_value_from(c@, "user.openzerg.type"@, i as int),
                    decreases c@.len() - i,
                {
                    if str_eq(c[i].0.as_str(), AGENT_LABEL_KEY) {
                        return str_eq(c[i].1.as_str(), AGENT_LABEL_VALUE);
                    }
                    i = i + 1;
                }
                false
            },
        }
    }

    /// What the container of an agent needs, enabled or not as `enabled`
    /// says: creation (and a start where enabled) where it does not exist,
    /// else what `update_action` says given whether its status is
    /// `Running`.
    pub fn container_action(exists: bool, enabled: bool, status: &str) -> (a: ContainerAction)
        ensures
            !exists ==> a == (ContainerAction::Create { start: enabled }),
            exists ==> a == update_action(enabled, status@ == "Running"@),
    {
        if !exists {
            return ContainerAction::Create { start: enabled };
        }
        let running = str_eq(status, "Running");
        if enabled && !running {
            ContainerAction::Start
        } else if !enabled && running {
            ContainerAction::Stop
        } else {
            ContainerAction::Keep
        }
    }

    /// The containers to remove: the agent containers among `instances` that
    /// no agent of `state` has, in order; a running one is stopped first.
    pub fn removals(state: &State, instances: &Vec<Instance>) -> (v: Vec<Removal>)
        requires
            state.wf(),
        ensures
            v@.map_values(|r: Removal| removal_of(r)) == removals_of(*state, instances@),
    {
        let mut v: Vec<Removal> = Vec::new();
        let mut j: usize = 0;
        while j < instances.len()
            invariant
                j <= instances@.len(),
                state.wf(),
                v@.map_values(|r: Removal| removal_of(r)) == removals_of(*state, instances@.take(j as int)),
            decreases instances@.len() - j,
        {
            let inst = &instances[j];
            let ghost before = v@;
            proof {
                assert(instances@.take(j + 1).drop_last() =~= instances@.take(j as int));
                assert(instances@.take(j + 1).last() == instances@[j as int]);
            }
            if AgentManager::is_agent_container(inst) && !state.agents.contains_key(inst.name.as_str()) {
                let r = if str_eq(inst.status.as_str(), "Running") {
                    Removal::StopAndDelete(inst.name.clone())
                } else {
                    Removal::Delete(inst.name.clone())
                };
                v.push(r);
                proof {
                    assert(v@.map_values(|r: Removal| removal_of(r)) =~= before.map_values(|r: Removal| removal_of(r)).push(
                        (instances@[j as int].name@, instances@[j as int].status@ == "Running"@),
                    ));
                }
            }
            j = j + 1;
        }
        assert(instances@.take(instances@.len() as int) =~= instances@);
        v
    }
}

/// The containers to remove among `insts`, in order, each with whether it
/// is stopped first: the agent containers that no agent of `state` has.
pub open spec fn removals_of(state: State, insts: Seq<Instance>) -> Seq<(Seq<char>, bool)>
    decreases insts.len(),
{
    if insts.len() == 0 {
        Seq::empty()
    } else {
        let last = insts.last();
        let rest = removals_of(state, insts.drop_last());
        if is_agent_config(last.config) && !state.agents@.contains_key(last.name@) {
            rest.push((last.name@, last.status@ == "Running"@))
        } else {
            rest
        }
    }
}

/// The container a removal is of, and whether it is stopped first.
pub open spec fn removal_of(r: Removal) -> (Seq<char>, bool) {
    match r {
        Removal::StopAndDelete(n) => (n@, true),
        Removal::Delete(n) => (n@, false),
    }
}

/// The first address of family `inet` among an interface's addresses, given
/// as (family, address) pairs.
pub open spec fn first_inet_from(addrs: Seq<(String, String)>, i: int) -> Option<Seq<char>>
    decreases addrs.len() - i,
{
    if i < 0 || i >= addrs.len() {
        None
    } else if addrs[i].0@ == "inet"@ {
        Some(addrs[i].1@)
    } else {
        first_inet_from(addrs, i + 1)
    }
}

/// The IPv4 address of a container, from the addresses of its `eth0`
/// interface, if it has one.
#[verifier::loop_isolation(false)]
pub fn container_ip(eth0: &Option<Vec<(String, String)>>) -> (r: Option<String>)
    ensures
        match eth0 {
            None => r is None,
            Some(a) => match (r, first_inet_from(a@, 0)) {
                (Some(x), Some(y)) => x@ == y,
                (None, None) => true,
                _ => false,
            },
        },
{
    match eth0 {
        None => None,
        Some(a) => {
            let mut i: usize = 0;
            while i < a.len()
                invariant
                    i <= a@.len(),
                    first_inet_from(a@, 0) == first_inet_from(a@, i as int),
                decreases a@.len() - i,
            {
                if str_eq(a[i].0.as_str(), "inet") {
                    return Some(a[i].1.clone());
                }
                i = i + 1;
            }
            None
        },
    }
}

} // verus!

//! The agent records of the management API, and what its agent endpoints
//! answer.

use vstd::prelude::*;
use crate::connections::{is_online, online, VmConnection};
use crate::models::{copy_opt_string, Agent as AgentRecord, State};
use crate::store::{subnet_address, subnet_address_string};
use crate::table::Table;
use crate::text::concat3;

verus! {

/// What the management API shows of an agent, with the model it is bound to.
pub struct Agent {
    pub name: String,
    pub enabled: bool,
    pub container_ip: String,
    pub host_ip: String,
    pub forgejo_username: Option<String>,
    pub online: bool,
    pub model_id: Option<String>,
    pub model_name: Option<String>,
}

/// A request to create an agent.
pub struct CreateAgentRequest {
    pub name: String,
    pub forgejo_username: Option<String>,
}

/// A request to bind an agent to a model.
pub struct BindModelRequest {
    pub model_id: String,
}

/// Whether `r` is what the API shows of agent `name` with record `a`, given
/// the connections `conns`: the record's fields, whether the agent is
/// connected, and no model name.
pub open spec fn shows(r: Agent, name: Seq<char>, a: AgentRecord, conns: Table<VmConnection>) -> bool {
    &&& r.name@ == name
    &&& r.enabled == a.enabled
    &&& r.container_ip == a.container_ip
    &&& r.host_ip == a.host_ip
    &&& r.forgejo_username == a.forgejo_username
    &&& r.online == is_online(conns, name)
    &&& r.model_id == a.model_id
    &&& r.model_name is None
}

/// The address the API gives the `n`-th agent's container:
/// `192.168.200.<n + 1>.2`, counting the agents it already has as `n - 1`.
pub open spec fn api_container_ip(count: nat) -> Seq<char> {
    subnet_address("192.168.200"@, count + 2, "2"@)
}

/// The record the API makes for a new agent, the state having `count`
/// agents: enabled, in the API's subnet, with the host address
/// `192.168.200.1.1`, unbound.
pub open spec fn is_api_agent(
    a: AgentRecord,
    count: nat,
    forgejo_username: Option<String>,
    token: Seq<char>,
    now: Seq<char>,
) -> bool {
    &&& a.enabled
    &&& a.container_ip@ == api_container_ip(count)
    &&& a.host_ip@ == "192.168.200.1.1"@
    &&& a.forgejo_username == forgejo_username
    &&& a.internal_token@ == token
    &&& a.model_id is None
    &&& a.created_at@ == now
    &&& a.updated_at@ == now
}

impl Agent {
    /// What the API shows of agent `name` with record `a`.
    pub fn of(name: &str, a: &AgentRecord, conns: &Table<VmConnection>) -> (r: Agent)
        requires
            conns.wf(),
        ensures
            shows(r, name@, *a, *conns),
    {
        Agent {
            name: name.to_owned(),
            enabled: a.enabled,
            container_ip: a.container_ip.clone(),
            host_ip: a.host_ip.clone(),
            forgejo_username: copy_opt_string(&a.forgejo_username),
            online: online(conns, name),
            model_id: copy_opt_string(&a.model_id),
            model_name: None,
        }
    }
}

/// The agents, in the state's order, as the API shows them.
pub fn list(state: &State, conns: &Table<VmConnection>) -> (v: Vec<Agent>)
    requires
        state.wf(),
        conns.wf(),
    ensures
        v@.len() == state.agents.count(),
        forall|i: int|
            0 <= i < v@.len() ==> shows(
                #[trigger] v@[i],
                state.agents.keys()[i],
                state.agents@[state.agents.keys()[i]],
                *conns,
            ),
{
    let n = state.agents.len();
    let mut v: Vec<Agent> = Vec::new();
    let mut i: usize = 0;
    while i < n
        invariant
            i <= n,
            n == state.agents.count(),
            state.wf(),
            conns.wf(),
            v@.len() == i,
            forall|j: int|
                0 <= j < i ==> shows(
                    #[trigger] v@[j],
                    state.agents.keys()[j],
                    state.agents@[state.agents.keys()[j]],
                    *conns,
                ),
        decreases n - i,
    {
        proof {
            state.agents.lemma_index_of(i as int);
        }
        let name = state.agents.key_at(i);
        let a = state.agents.value_at(i);
        v.push(Agent::of(name.as_str(), a, conns));
        i = i + 1;
    }
    v
}

/// Agent `name` as the API shows it, or why there is none.
pub fn get(state: &State, conns: &Table<VmConnection>, name: &str) -> (r: Result<Agent, String>)
    requires
        state.wf(),
        conns.wf(),
    ensures
        state.agents@.contains_key(name@) ==> (r matches Ok(x) && shows(x, name@, state.agents@[name@], *conns)),
        !state.agents@.contains_key(name@) ==> (r matches Err(m) && m@ == "Agent "@ + name@ + " not found"@),
{
    match state.agents.get(name) {
        Some(a) => Ok(Agent::of(name, a, conns)),
        None => Err(concat3("Agent ", name, " not found")),
    }
}

/// Creates the agent `req.name` as the API does, with `token` and stamped
/// `now`, and answers what the API shows of it (not yet connected). A taken
/// name is refused, changing nothing.
pub fn create(state: &mut State, req: CreateAgentRequest, token: String, now: String) -> (r: Result<Agent, String>)
    requires
        old(state).wf(),
        old(state).agents.count() + 2 <= usize::MAX,
    ensures
        final(state).wf(),
        old(state).agents@.contains_key(req.name@) ==> {
            &&& r matches Err(m) && m@ == "Agent "@ + req.name@ + " already exists"@
            &&& *final(state) == *old(state)
        },
        !old(state).agents@.contains_key(req.name@) ==> {
            &&& final(state).same_except_agents(&*old(state))
            &&& final(state).agents@.contains_key(req.name@)
            &&& is_api_agent(
                final(state).agents@[req.name@],
                old(state).agents.count(),
                req.forgejo_username,
                token@,
                now@,
            )
            &&& final(state).agents@.remove(req.name@) == old(state).agents@
            &&& r matches Ok(x) && {
                &&& x.name@ == req.name@
                &&& x.enabled
                &&& x.container_ip@ == final(state).agents@[req.name@].container_ip@
                &&& x.host_ip@ == final(state).agents@[req.name@].host_ip@
                &&& x.forgejo_username == req.forgejo_username
                &&& !x.online
                &&& x.model_id is None
                &&& x.model_name is None
            }
        },
{
    if state.agents.contains_key(req.name.as_str()) {
        return Err(concat3("Agent ", req.name.as_str(), " already exists"));
    }
    let count = state.agents.len();
    let container_ip = subnet_address_string("192.168.200", count + 2, "2");
    let record = AgentRecord {
        enabled: true,
        container_ip: container_ip.clone(),
        host_ip: "192.168.200.1.1".to_owned(),
        forgejo_username: copy_opt_string(&req.forgejo_username),
        internal_token: token,
        model_id: None,
        created_at: now.clone(),
        updated_at: now,
    };
    let shown = Agent {
        name: req.name.clone(),
        enabled: true,
        container_ip,
        host_ip: "192.168.200.1.1".to_owned(),
        forgejo_username: req.forgejo_username,
        online: false,
        model_id: None,
        model_name: None,
    };
    let ghost nv = req.name@;
    state.agents.insert(req.name, record);
    proof {
        assert(state.agents@.remove(nv) =~= old(state).agents@);
    }
    Ok(shown)
}

} // verus!

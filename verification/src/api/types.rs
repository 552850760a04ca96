//! The records of the agent-management API.

use vstd::prelude::*;
use crate::connections::{is_online, online, online_count, count_live, VmConnection};
use crate::models::{Agent, ForgejoUser, Provider, State};
use crate::models::provider_type_name;
use crate::table::Table;

verus! {

/// The envelope of every answer: the data on success, the error message
/// otherwise.
pub struct ApiResponse<T> {
    pub success: bool,
    pub data: Option<T>,
    pub error: Option<String>,
}

impl<T> ApiResponse<T> {
    /// A successful answer carrying `data`.
    pub fn success(data: T) -> (r: Self)
        ensures
            r.success,
            r.data == Some(data),
            r.error is None,
    {
        ApiResponse { success: true, data: Some(data), error: None }
    }

    /// A failed answer with message `msg`.
    pub fn error(msg: &str) -> (r: Self)
        ensures
            !r.success,
            r.data is None,
            r.error matches Some(e) && e@ == msg@,
    {
        ApiResponse { success: false, data: None, error: Some(msg.to_owned()) }
    }
}

/// A request to create an agent.
pub struct CreateAgentRequest {
    pub name: String,
    pub forgejo_username: Option<String>,
}

/// A request to create a Forgejo account.
pub struct CreateForgejoUserRequest {
    pub username: String,
    pub password: String,
}

/// A request to bind an agent to a Forgejo account.
pub struct BindRequest {
    pub agent: String,
    pub forgejo_user: String,
}

/// A request to unbind an agent from its Forgejo account.
pub struct UnbindRequest {
    pub agent: String,
}

/// What the API shows of an agent.
pub struct AgentInfo {
    pub name: String,
    pub enabled: bool,
    pub container_ip: String,
    pub host_ip: String,
    pub forgejo_username: Option<String>,
    pub online: bool,
}

/// What the API shows of a Forgejo account: not its password.
pub struct ForgejoUserInfo {
    pub username: String,
    pub email: String,
    pub created_at: String,
}

/// Where and when the configuration was exported.
pub struct ConfigInfo {
    pub exported_at: String,
    pub path: String,
}

/// What the API shows of a provider: not its key.
pub struct ProviderInfo {
    pub id: String,
    pub name: String,
    pub provider_type: String,
    pub base_url: String,
    pub enabled: bool,
    pub created_at: String,
}

/// How many agents there are, are connected and are enabled.
pub struct StatsSummary {
    pub total_agents: usize,
    pub online_agents: usize,
    pub enabled_agents: usize,
}

/// A request to create a repository.
pub struct CreateRepoRequest {
    pub owner: String,
    pub name: String,
    pub private: Option<bool>,
}

/// A request to give a repository to another owner.
pub struct TransferRepoRequest {
    pub new_owner: String,
}

/// A request to add a collaborator to a repository.
pub struct AddCollaboratorRequest {
    pub username: String,
    pub permission: Option<String>,
}

/// A request to create an organization.
pub struct CreateOrgRequest {
    pub name: String,
}

/// How many of the first `n` agents are enabled.
pub open spec fn count_enabled(es: Seq<(Seq<char>, Agent)>, n: int) -> nat
    decreases n,
{
    if n <= 0 {
        0
    } else {
        count_enabled(es, n - 1) + if es[n - 1].1.enabled {
            1nat
        } else {
            0nat
        }
    }
}

proof fn lemma_count_enabled_bound(es: Seq<(Seq<char>, Agent)>, n: int)
    ensures
        count_enabled(es, n) <= if n < 0 { 0 } else { n },
    decreases n,
{
    if n > 0 {
        lemma_count_enabled_bound(es, n - 1);
    }
}

/// Counting the first `n` agents one by one gives the number of the first `n`
/// names whose agent is enabled.
proof fn lemma_count_enabled_filter(agents: Table<Agent>, n: int)
    requires
        agents.wf(),
        0 <= n <= agents.count(),
    ensures
        count_enabled(agents.entries_view(), n) == agents.keys().take(n).filter(|k: Seq<char>| agents@[k].enabled).len(),
    decreases n,
{
    if n > 0 {
        lemma_count_enabled_filter(agents, n - 1);
        let ks = agents.keys().take(n);
        assert(ks.drop_last() =~= agents.keys().take(n - 1));
        agents.lemma_index_of(n - 1);
        let es = agents.entries_view();
        let k = agents.keys()[n - 1];
        assert(k == es[n - 1].0);
        assert(agents@[k] == es[n - 1].1);
        assert(agents.keys().len() == agents.count());
        assert(ks.len() == n);
        assert(ks.last() == k);
        let f = |x: Seq<char>| agents@[x].enabled;
        reveal_with_fuel(Seq::filter, 1);
        assert(ks.filter(f).len() == ks.drop_last().filter(f).len() + if f(k) { 1int } else { 0int });
    }
}

/// The count of enabled agents is the number of agents of the table whose
/// enabled flag is set: all of them when every agent is enabled, none when
/// no agent is.
pub proof fn law_enabled_count_is_enabled_agents(agents: Table<Agent>)
    requires
        agents.wf(),
    ensures
        count_enabled(agents.entries_view(), agents.entries_view().len() as int)
            == agents.keys().filter(|k: Seq<char>| agents@[k].enabled).len(),
        (forall|k: Seq<char>| agents@.contains_key(k) ==> agents@[k].enabled)
            ==> count_enabled(agents.entries_view(), agents.entries_view().len() as int) == agents.count(),
        (forall|k: Seq<char>| agents@.contains_key(k) ==> !agents@[k].enabled)
            ==> count_enabled(agents.entries_view(), agents.entries_view().len() as int) == 0,
{
    let f = |x: Seq<char>| agents@[x].enabled;
    let ks = agents.keys();
    lemma_count_enabled_filter(agents, agents.count() as int);
    assert(ks.take(agents.count() as int) =~= ks);
    if forall|k: Seq<char>| agents@.contains_key(k) ==> agents@[k].enabled {
        assert forall|i: int| 0 <= i < ks.len() implies f(#[trigger] ks[i]) by {
            agents.lemma_index_of(i);
            assert(agents@.contains_key(ks[i]));
        }
        lemma_filter_all(ks, f);
    }
    if forall|k: Seq<char>| agents@.contains_key(k) ==> !agents@[k].enabled {
        assert forall|i: int| 0 <= i < ks.len() implies !f(#[trigger] ks[i]) by {
            agents.lemma_index_of(i);
            assert(agents@.contains_key(ks[i]));
        }
        lemma_filter_none(ks, f);
    }
}

/// A sequence all of whose items pass the test is its own filter.
proof fn lemma_filter_all(s: Seq<Seq<char>>, f: spec_fn(Seq<char>) -> bool)
    requires
        forall|i: int| 0 <= i < s.len() ==> f(#[trigger] s[i]),
    ensures
        s.filter(f).len() == s.len(),
    decreases s.len(),
{
    if s.len() > 0 {
        assert forall|i: int| 0 <= i < s.drop_last().len() implies f(#[trigger] s.drop_last()[i]) by {
            assert(s.drop_last()[i] == s[i]);
        }
        lemma_filter_all(s.drop_last(), f);
        assert(f(s.last()));
        reveal_with_fuel(Seq::filter, 1);
        assert(s.filter(f) == s.drop_last().filter(f).push(s.last()));
    }
}

/// A sequence none of whose items passes the test filters to nothing.
proof fn lemma_filter_none(s: Seq<Seq<char>>, f: spec_fn(Seq<char>) -> bool)
    requires
        forall|i: int| 0 <= i < s.len() ==> !f(#[trigger] s[i]),
    ensures
        s.filter(f).len() == 0,
    decreases s.len(),
{
    if s.len() > 0 {
        assert forall|i: int| 0 <= i < s.drop_last().len() implies !f(#[trigger] s.drop_last()[i]) by {
            assert(s.drop_last()[i] == s[i]);
        }
        lemma_filter_none(s.drop_last(), f);
        assert(!f(s.last()));
        reveal_with_fuel(Seq::filter, 1);
        assert(s.filter(f) == s.drop_last().filter(f));
    }
}

impl AgentInfo {
    /// What the API shows of agent `name`, connected or not as `online`
    /// says.
    pub fn of(name: &str, a: &Agent, online: bool) -> (i: AgentInfo)
        ensures
            i.name@ == name@,
            i.enabled == a.enabled,
            i.container_ip == a.container_ip,
            i.host_ip == a.host_ip,
            i.forgejo_username == a.forgejo_username,
            i.online == online,
    {
        AgentInfo {
            name: name.to_owned(),
            enabled: a.enabled,
            container_ip: a.container_ip.clone(),
            host_ip: a.host_ip.clone(),
            forgejo_username: crate::models::copy_opt_string(&a.forgejo_username),
            online,
        }
    }

    /// What the API shows of every agent of `state`, in the order of the
    /// agents table, each online where its connection is live.
    pub fn list(state: &State, conns: &Table<VmConnection>) -> (v: Vec<AgentInfo>)
        requires
            conns.wf(),
        ensures
            v@.len() == state.agents.entries_view().len(),
            forall|i: int|
                0 <= i < v@.len() ==> {
                    let (k, a) = state.agents.entries_view()[i];
                    &&& (#[trigger] v@[i]).name@ == k
                    &&& v@[i].enabled == a.enabled
                    &&& v@[i].container_ip == a.container_ip
                    &&& v@[i].host_ip == a.host_ip
                    &&& v@[i].forgejo_username == a.forgejo_username
                    &&& v@[i].online == is_online(*conns, k)
                },
    {
        let n = state.agents.len();
        let ghost es = state.agents.entries_view();
        let mut v: Vec<AgentInfo> = Vec::new();
        let mut i: usize = 0;
        while i < n
            invariant
                i <= n,
                n == es.len(),
                es == state.agents.entries_view(),
                conns.wf(),
                v@.len() == i,
                forall|j: int|
                    0 <= j < i ==> {
                        let (k, a) = es[j];
                        &&& (#[trigger] v@[j]).name@ == k
                        &&& v@[j].enabled == a.enabled
                        &&& v@[j].container_ip == a.container_ip
                        &&& v@[j].host_ip == a.host_ip
                        &&& v@[j].forgejo_username == a.forgejo_username
                        &&& v@[j].online == is_online(*conns, k)
                    },
            decreases n - i,
        {
            let name = state.agents.key_at(i);
            let a = state.agents.value_at(i);
            let on = online(conns, name.as_str());
            v.push(AgentInfo::of(name.as_str(), a, on));
            i = i + 1;
        }
        v
    }
}

impl ForgejoUserInfo {
    /// What the API shows of Forgejo account `u`.
    pub fn of(u: &ForgejoUser) -> (i: ForgejoUserInfo)
        ensures
            i.username == u.username,
            i.email == u.email,
            i.created_at == u.created_at,
    {
        ForgejoUserInfo { username: u.username.clone(), email: u.email.clone(), created_at: u.created_at.clone() }
    }
}

impl ProviderInfo {
    /// What the API shows of provider `p`, stored under `id`; its type is
    /// written as its name.
    pub fn of(id: &str, p: &Provider) -> (i: ProviderInfo)
        ensures
            i.id@ == id@,
            i.name == p.name,
            i.provider_type@ == provider_type_name(p.provider_type),
            i.base_url == p.base_url,
            i.enabled == p.enabled,
            i.created_at == p.created_at,
    {
        ProviderInfo {
            id: id.to_owned(),
            name: p.name.clone(),
            provider_type: p.provider_type.as_str().to_owned(),
            base_url: p.base_url.clone(),
            enabled: p.enabled,
            created_at: p.created_at.clone(),
        }
    }
}

impl StatsSummary {
    /// The counts of `state`'s agents, of the live connections, and of the
    /// enabled agents.
    pub fn of(state: &State, conns: &Table<VmConnection>) -> (s: StatsSummary)
        ensures
            s.total_agents == state.agents.count(),
            s.online_agents == count_live(conns.entries_view(), conns.entries_view().len() as int),
            s.enabled_agents == count_enabled(state.agents.entries_view(), state.agents.entries_view().len() as int),
            state.agents.wf() ==> s.enabled_agents == state.agents.keys().filter(|k: Seq<char>| state.agents@[k].enabled).len(),
            conns.wf() ==> s.online_agents == conns.keys().filter(|k: Seq<char>| is_online(*conns, k)).len(),
    {
        proof {
            if state.agents.wf() {
                law_enabled_count_is_enabled_agents(state.agents);
            }
        }
        let n = state.agents.len();
        let ghost es = state.agents.entries_view();
        let mut enabled: usize = 0;
        let mut i: usize = 0;
        while i < n
            invariant
                i <= n,
                n == es.len(),
                es == state.agents.entries_view(),
                enabled == count_enabled(es, i as int),
            decreases n - i,
        {
            proof {
                lemma_count_enabled_bound(es, i as int);
            }
            if state.agents.value_at(i).enabled {
                enabled = enabled + 1;
            }
            i = i + 1;
        }
        StatsSummary { total_agents: n, online_agents: online_count(conns), enabled_agents: enabled }
    }
}

} // verus!

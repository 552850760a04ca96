//! The operations on the manager's state: creating, removing, enabling and
//! binding agents, and the same for providers, keys and models.

use vstd::prelude::*;
use crate::models::{Agent, Error, Model, Provider, ProviderType, ApiKey, State};
use crate::text::{concat3, decimal, push_decimal, push_str, str_eq, string_of};

verus! {

/// The address of host `host` in the `n`-th agent subnet below `base`,
/// "{base}.{n}.{host}".
pub open spec fn subnet_address(base: Seq<char>, n: nat, host: Seq<char>) -> Seq<char> {
    base + "."@ + decimal(n) + "."@ + host
}

/// The text "{base}.{n}.{host}".
pub fn subnet_address_string(base: &str, n: usize, host: &str) -> (s: String)
    ensures
        s@ == subnet_address(base@, n as nat, host@),
{
    let mut v: Vec<char> = Vec::new();
    push_str(&mut v, base);
    push_str(&mut v, ".");
    push_decimal(&mut v, n);
    push_str(&mut v, ".");
    push_str(&mut v, host);
    proof {
        assert(v@ =~= subnet_address(base@, n as nat, host@));
    }
    string_of(&v)
}

/// What creating agent `name` does to the state: where the name is taken,
/// nothing but an error; otherwise the new agent, made as `is_new_agent`
/// says with one more than the number of agents, is added at the end.
pub open spec fn create_agent_post(
    before: State,
    after: State,
    name: Seq<char>,
    forgejo_username: Option<Seq<char>>,
    token: Seq<char>,
    now: Seq<char>,
    r: Result<(), Error>,
) -> bool {
    &&& before.agents@.contains_key(name) ==> (r matches Err(Error::AgentAlreadyExists(n)) && n@ == name) && after == before
    &&& !before.agents@.contains_key(name) ==> {
        &&& r is Ok
        &&& after.agents@.contains_key(name)
        &&& is_new_agent(
            after.agents@[name],
            before.defaults.container_subnet_base@,
            before.agents.count() + 1,
            forgejo_username,
            token,
            now,
        )
        &&& after.agents@.remove(name) == before.agents@
        &&& after.agents.keys() == before.agents.keys().push(name)
        &&& after.same_except_agents(&before)
    }
}

/// What deleting agent `name` does to the state: where there is one, it is
/// gone and nothing else changes; otherwise nothing but an error.
pub open spec fn delete_agent_post(before: State, after: State, name: Seq<char>, r: Result<(), Error>) -> bool {
    &&& after.same_except_agents(&before)
    &&& before.agents@.contains_key(name) ==> r is Ok && after.agents@ == before.agents@.remove(name)
    &&& !before.agents@.contains_key(name) ==> (r matches Err(Error::AgentNotFound(n)) && n@ == name) && after == before
}

/// `a` is the agent that creation makes as the `n`-th one below `base`.
pub open spec fn is_new_agent(
    a: Agent,
    base: Seq<char>,
    n: nat,
    forgejo_username: Option<Seq<char>>,
    token: Seq<char>,
    now: Seq<char>,
) -> bool {
    &&& a.enabled
    &&& a.container_ip@ == subnet_address(base, n, "2"@)
    &&& a.host_ip@ == subnet_address(base, n, "1"@)
    &&& a.forgejo_username.deep_view() == forgejo_username
    &&& a.internal_token@ == token
    &&& a.model_id is None
    &&& a.created_at@ == now
    &&& a.updated_at@ == now
}

/// The Forgejo account an agent gets when none is named: its own name.
pub fn resolve_forgejo_username(name: &str, forgejo_username: Option<String>) -> (r: Option<String>)
    ensures
        forgejo_username is Some ==> r.deep_view() == forgejo_username.deep_view(),
        forgejo_username is None ==> r.deep_view() == Some(name@),
{
    match forgejo_username {
        Some(u) => Some(u),
        None => Some(name.to_owned()),
    }
}

/// Builds the `n`-th agent below `base`.
pub fn new_agent(base: &str, n: usize, forgejo_username: Option<String>, internal_token: String, now: String) -> (a: Agent)
    ensures
        is_new_agent(a, base@, n as nat, forgejo_username.deep_view(), internal_token@, now@),
{
    Agent {
        enabled: true,
        container_ip: subnet_address_string(base, n, "2"),
        host_ip: subnet_address_string(base, n, "1"),
        forgejo_username,
        internal_token,
        model_id: None,
        created_at: now.clone(),
        updated_at: now,
    }
}

impl State {
    /// `self` and `o` agree on everything but the agents.
    pub open spec fn same_except_agents(&self, o: &State) -> bool {
        &&& self.version == o.version
        &&& self.defaults == o.defaults
        &&& self.providers == o.providers
        &&& self.api_keys == o.api_keys
        &&& self.forgejo_users == o.forgejo_users
        &&& self.skills == o.skills
        &&& self.tools == o.tools
        &&& self.models == o.models
        &&& self.admin_token == o.admin_token
    }

    /// Adds the agent `name` as the next agent of the subnet: it is enabled,
    /// its container has address "{base}.{n}.2" and its host "{base}.{n}.1",
    /// where `n` is one more than the number of agents. Fails, changing
    /// nothing, when the name is taken.
    pub fn create_agent(&mut self, name: String, forgejo_username: Option<String>, internal_token: String, now: String) -> (r: Result<(), Error>)
        requires
            old(self).wf(),
            old(self).agents.count() < usize::MAX,
        ensures
            final(self).wf(),
            create_agent_post(*old(self), *final(self), name@, forgejo_username.deep_view(), internal_token@, now@, r),
    {
        if self.agents.contains_key(name.as_str()) {
            return Err(Error::AgentAlreadyExists(name));
        }
        let n: usize = self.agents.len() + 1;
        let agent = new_agent(self.defaults.container_subnet_base.as_str(), n, forgejo_username, internal_token, now);
        let ghost nv = name@;
        self.agents.insert(name, agent);
        proof {
            assert(self.agents@.remove(nv) =~= old(self).agents@);
        }
        Ok(())
    }

    /// Removes the agent `name`; fails, changing nothing, when there is none.
    pub fn delete_agent(&mut self, name: &str) -> (r: Result<(), Error>)
        requires
            old(self).wf(),
        ensures
            final(self).wf(),
            delete_agent_post(*old(self), *final(self), name@, r),
    {
        match self.agents.remove_entry(name) {
            Some(_) => Ok(()),
            None => Err(Error::AgentNotFound(name.to_owned())),
        }
    }

    /// Turns the agent `name` on or off and stamps it with `now`; the other
    /// agents, and the order, stay. Fails, changing nothing, when there is no
    /// such agent.
    pub fn set_agent_enabled(&mut self, name: &str, enabled: bool, now: String) -> (r: Result<(), Error>)
        requires
            old(self).wf(),
        ensures
            final(self).wf(),
            final(self).same_except_agents(old(self)),
            old(self).agents@.contains_key(name@) ==> {
                &&& r is Ok
                &&& final(self).agents@ == old(self).agents@.insert(
                    name@,
                    Agent { enabled: enabled, updated_at: now, ..old(self).agents@[name@] },
                )
                &&& final(self).agents.keys() == old(self).agents.keys()
            },
            !old(self).agents@.contains_key(name@) ==> {
                &&& r matches Err(Error::AgentNotFound(n)) && n@ == name@
                &&& *final(self) == *old(self)
            },
    {
        match self.agents.remove_entry(name) {
            Some((i, key, agent)) => {
                let updated = Agent { enabled, updated_at: now, ..agent };
                self.agents.insert_at(i, key, updated);
                proof {
                    assert(old(self).agents.keys().remove(i as int).insert(i as int, name@) =~= old(self).agents.keys()) by {
                        old(self).agents.lemma_index_of(i as int);
                    }
                    assert(self.agents@ =~= old(self).agents@.insert(name@, Agent { enabled: enabled, updated_at: now, ..old(self).agents@[name@] }));
                }
                Ok(())
            },
            None => Err(Error::AgentNotFound(name.to_owned())),
        }
    }
}


/// `a` with its model binding dropped when it is bound to `model_id`.
pub open spec fn clear_model(a: Agent, model_id: Seq<char>) -> Agent {
    if a.model_id.deep_view() == Some(model_id) {
        Agent { model_id: None, ..a }
    } else {
        a
    }
}

/// `p` is the provider that creation makes from these values.
pub open spec fn is_new_provider(
    p: Provider,
    id: Seq<char>,
    name: Seq<char>,
    provider_type: ProviderType,
    base_url: Seq<char>,
    api_key: Seq<char>,
    now: Seq<char>,
) -> bool {
    &&& p.id@ == id
    &&& p.name@ == name
    &&& p.provider_type == provider_type
    &&& p.base_url@ == base_url
    &&& p.api_key@ == api_key
    &&& p.enabled
    &&& p.created_at@ == now
    &&& p.updated_at@ == now
}

/// `m` is the model that creation makes from these values.
pub open spec fn is_new_model(
    m: Model,
    id: Seq<char>,
    name: Seq<char>,
    provider_id: Seq<char>,
    model_name: Seq<char>,
    now: Seq<char>,
) -> bool {
    &&& m.id@ == id
    &&& m.name@ == name
    &&& m.provider_id@ == provider_id
    &&& m.model_name@ == model_name
    &&& m.enabled
    &&& m.created_at@ == now
    &&& m.updated_at@ == now
}

/// `k` is the API key record that issuing makes from these values.
pub open spec fn is_new_api_key(
    k: ApiKey,
    id: Seq<char>,
    name: Seq<char>,
    key_hash: Seq<char>,
    provider_id: Seq<char>,
    now: Seq<char>,
) -> bool {
    &&& k.id@ == id
    &&& k.name@ == name
    &&& k.key_hash@ == key_hash
    &&& k.provider_id@ == provider_id
    &&& k.created_at@ == now
    &&& k.updated_at@ == now
}

impl State {
    /// `self` and `o` agree on everything but the agents and models.
    pub open spec fn same_except_agents_models(&self, o: &State) -> bool {
        &&& self.version == o.version
        &&& self.defaults == o.defaults
        &&& self.providers == o.providers
        &&& self.api_keys == o.api_keys
        &&& self.forgejo_users == o.forgejo_users
        &&& self.skills == o.skills
        &&& self.tools == o.tools
        &&& self.admin_token == o.admin_token
    }

    /// `self` and `o` agree on everything but the providers.
    pub open spec fn same_except_providers(&self, o: &State) -> bool {
        &&& self.version == o.version
        &&& self.defaults == o.defaults
        &&& self.agents == o.agents
        &&& self.api_keys == o.api_keys
        &&& self.forgejo_users == o.forgejo_users
        &&& self.skills == o.skills
        &&& self.tools == o.tools
        &&& self.models == o.models
        &&& self.admin_token == o.admin_token
    }

    /// `self` and `o` agree on everything but the API keys.
    pub open spec fn same_except_api_keys(&self, o: &State) -> bool {
        &&& self.version == o.version
        &&& self.defaults == o.defaults
        &&& self.agents == o.agents
        &&& self.providers == o.providers
        &&& self.forgejo_users == o.forgejo_users
        &&& self.skills == o.skills
        &&& self.tools == o.tools
        &&& self.models == o.models
        &&& self.admin_token == o.admin_token
    }

    /// `self` and `o` agree on everything but the models.
    pub open spec fn same_except_models(&self, o: &State) -> bool {
        &&& self.same_except_agents_models(o)
        &&& self.agents == o.agents
    }

    /// Binds the agent `name` to the model `model_id` and stamps it with
    /// `now`. Fails, changing nothing, when the agent or the model is unknown
    /// (the agent is looked up first).
    pub fn bind_model(&mut self, name: &str, model_id: String, now: String) -> (r: Result<(), Error>)
        requires
            old(self).wf(),
        ensures
            final(self).wf(),
            final(self).same_except_agents(old(self)),
            !old(self).agents@.contains_key(name@) ==> {
                &&& r matches Err(Error::AgentNotFound(n)) && n@ == name@
                &&& *final(self) == *old(self)
            },
            old(self).agents@.contains_key(name@) && !old(self).models@.contains_key(model_id@) ==> {
                &&& r matches Err(Error::NotFound(m)) && m@ == "Model "@ + model_id@ + " not found"@
                &&& *final(self) == *old(self)
            },
            old(self).agents@.contains_key(name@) && old(self).models@.contains_key(model_id@) ==> {
                &&& r is Ok
                &&& final(self).agents@ == old(self).agents@.insert(
                    name@,
                    Agent { model_id: Some(model_id), updated_at: now, ..old(self).agents@[name@] },
                )
                &&& final(self).agents.keys() == old(self).agents.keys()
            },
    {
        if !self.agents.contains_key(name) {
            return Err(Error::AgentNotFound(name.to_owned()));
        }
        if !self.models.contains_key(model_id.as_str()) {
            return Err(Error::NotFound(concat3("Model ", model_id.as_str(), " not found")));
        }
        match self.agents.remove_entry(name) {
            Some((i, key, agent)) => {
                let updated = Agent { model_id: Some(model_id), updated_at: now, ..agent };
                self.agents.insert_at(i, key, updated);
                proof {
                    assert(old(self).agents.keys().remove(i as int).insert(i as int, name@) =~= old(self).agents.keys()) by {
                        old(self).agents.lemma_index_of(i as int);
                    }
                    assert(self.agents@ =~= old(self).agents@.insert(name@, Agent { model_id: Some(model_id), updated_at: now, ..old(self).agents@[name@] }));
                }
                Ok(())
            },
            None => Err(Error::AgentNotFound(name.to_owned())),
        }
    }

    /// Drops the model binding of the agent `name` and stamps it with `now`.
    /// Fails, changing nothing, when there is no such agent.
    pub fn unbind_model(&mut self, name: &str, now: String) -> (r: Result<(), Error>)
        requires
            old(self).wf(),
        ensures
            final(self).wf(),
            final(self).same_except_agents(old(self)),
            !old(self).agents@.contains_key(name@) ==> {
                &&& r matches Err(Error::AgentNotFound(n)) && n@ == name@
                &&& *final(self) == *old(self)
            },
            old(self).agents@.contains_key(name@) ==> {
                &&& r is Ok
                &&& final(self).agents@ == old(self).agents@.insert(
                    name@,
                    Agent { model_id: None, updated_at: now, ..old(self).agents@[name@] },
                )
                &&& final(self).agents.keys() == old(self).agents.keys()
            },
    {
        match self.agents.remove_entry(name) {
            Some((i, key, agent)) => {
                let updated = Agent { model_id: None, updated_at: now, ..agent };
                self.agents.insert_at(i, key, updated);
                proof {
                    assert(old(self).agents.keys().remove(i as int).insert(i as int, name@) =~= old(self).agents.keys()) by {
                        old(self).agents.lemma_index_of(i as int);
                    }
                    assert(self.agents@ =~= old(self).agents@.insert(name@, Agent { model_id: None, updated_at: now, ..old(self).agents@[name@] }));
                }
                Ok(())
            },
            None => Err(Error::AgentNotFound(name.to_owned())),
        }
    }

    /// Drops every agent's binding to `model_id`, leaving all else as it was.
    pub fn clear_model_bindings(&mut self, model_id: &str)
        requires
            old(self).wf(),
        ensures
            final(self).wf(),
            final(self).same_except_agents(old(self)),
            final(self).agents.keys() == old(self).agents.keys(),
            final(self).agents@.dom() == old(self).agents@.dom(),
            forall|k: Seq<char>| #[trigger] old(self).agents@.contains_key(k) ==>
                final(self).agents@[k] == clear_model(old(self).agents@[k], model_id@),
    {
        let n: usize = self.agents.len();
        let mut i: usize = 0;
        while i < n
            invariant
                self.wf(),
                self.same_except_agents(old(self)),
                n == old(self).agents.count(),
                i <= n,
                self.agents.keys() == old(self).agents.keys(),
                forall|j: int| 0 <= j < i ==> #[trigger] self.agents@[old(self).agents.keys()[j]]
                    == clear_model(old(self).agents@[old(self).agents.keys()[j]], model_id@),
                forall|j: int| i <= j < n ==> #[trigger] self.agents@[old(self).agents.keys()[j]]
                    == old(self).agents@[old(self).agents.keys()[j]],
            decreases n - i,
        {
            let ghost before = self.agents;
            proof {
                old(self).agents.lemma_index_of(i as int);
                self.agents.lemma_index_of(i as int);
            }
            let bound = match &self.agents.value_at(i).model_id {
                Some(m) => str_eq(m.as_str(), model_id),
                None => false,
            };
            if bound {
                let key = self.agents.key_at(i).clone();
                match self.agents.remove_entry(key.as_str()) {
                    Some((p, k2, agent)) => {
                        let updated = Agent { model_id: None, ..agent };
                        self.agents.insert_at(p, k2, updated);
                        proof {
                            assert(before.keys().remove(p as int).insert(p as int, key@) =~= before.keys()) by {
                                before.lemma_index_of(p as int);
                            }
                        }
                    },
                    None => {},
                }
            }
            proof {
                let kk = old(self).agents.keys()[i as int];
                assert(before@.contains_key(kk));
                assert forall|j: int| 0 <= j < n && j != i implies #[trigger] self.agents@[old(self).agents.keys()[j]]
                    == before@[old(self).agents.keys()[j]] by {
                    old(self).agents.lemma_index_of(j);
                    assert(old(self).agents.keys()[j] != kk);
                }
            }
            i = i + 1;
        }
        proof {
            assert forall|k: Seq<char>| #[trigger] old(self).agents@.contains_key(k) implies
                self.agents@[k] == clear_model(old(self).agents@[k], model_id@) by {
                let j = old(self).agents.index_of(k);
                assert(0 <= j < old(self).agents.keys().len() && old(self).agents.keys()[j] == k);
            }
            assert(self.agents@.dom() =~= old(self).agents@.dom());
        }
    }
}


impl State {
    /// Registers the provider `id`, enabled; a provider already under `id`
    /// is replaced.
    pub fn create_provider(
        &mut self,
        id: String,
        name: String,
        provider_type: ProviderType,
        base_url: String,
        api_key: String,
        now: String,
    )
        requires
            old(self).wf(),
        ensures
            final(self).wf(),
            final(self).same_except_providers(old(self)),
            final(self).providers@.contains_key(id@),
            is_new_provider(final(self).providers@[id@], id@, name@, provider_type, base_url@, api_key@, now@),
            final(self).providers@.remove(id@) == old(self).providers@.remove(id@),
    {
        let key = id.clone();
        let p = Provider {
            id,
            name,
            provider_type,
            base_url,
            api_key,
            enabled: true,
            created_at: now.clone(),
            updated_at: now,
        };
        let ghost kv = key@;
        self.providers.insert(key, p);
        proof {
            assert(self.providers@.remove(kv) =~= old(self).providers@.remove(kv));
        }
    }

    /// Removes the provider `id`; fails, changing nothing, when there is none.
    pub fn delete_provider(&mut self, id: &str) -> (r: Result<(), Error>)
        requires
            old(self).wf(),
        ensures
            final(self).wf(),
            final(self).same_except_providers(old(self)),
            old(self).providers@.contains_key(id@) ==> r is Ok && final(self).providers@ == old(self).providers@.remove(id@),
            !old(self).providers@.contains_key(id@) ==> {
                &&& r matches Err(Error::NotFound(m)) && m@ == "Provider "@ + id@ + " not found"@
                &&& *final(self) == *old(self)
            },
    {
        match self.providers.remove_entry(id) {
            Some(_) => Ok(()),
            None => Err(Error::NotFound(concat3("Provider ", id, " not found"))),
        }
    }

    /// Turns the provider `id` on or off and stamps it with `now`. Fails,
    /// changing nothing, when there is no such provider.
    pub fn set_provider_enabled(&mut self, id: &str, enabled: bool, now: String) -> (r: Result<(), Error>)
        requires
            old(self).wf(),
        ensures
            final(self).wf(),
            final(self).same_except_providers(old(self)),
            old(self).providers@.contains_key(id@) ==> {
                &&& r is Ok
                &&& final(self).providers@ == old(self).providers@.insert(
                    id@,
                    Provider { enabled: enabled, updated_at: now, ..old(self).providers@[id@] },
                )
                &&& final(self).providers.keys() == old(self).providers.keys()
            },
            !old(self).providers@.contains_key(id@) ==> {
                &&& r matches Err(Error::NotFound(m)) && m@ == "Provider "@ + id@ + " not found"@
                &&& *final(self) == *old(self)
            },
    {
        match self.providers.remove_entry(id) {
            Some((i, key, p)) => {
                let updated = Provider { enabled, updated_at: now, ..p };
                self.providers.insert_at(i, key, updated);
                proof {
                    assert(old(self).providers.keys().remove(i as int).insert(i as int, id@) =~= old(self).providers.keys()) by {
                        old(self).providers.lemma_index_of(i as int);
                    }
                    assert(self.providers@ =~= old(self).providers@.insert(id@, Provider { enabled: enabled, updated_at: now, ..old(self).providers@[id@] }));
                }
                Ok(())
            },
            None => Err(Error::NotFound(concat3("Provider ", id, " not found"))),
        }
    }

    /// The name of the provider `id`, or `fallback` when there is none.
    pub fn provider_name_or(&self, id: &str, fallback: &str) -> (s: String)
        requires
            self.wf(),
        ensures
            self.providers@.contains_key(id@) ==> s@ == self.providers@[id@].name@,
            !self.providers@.contains_key(id@) ==> s@ == fallback@,
    {
        match self.providers.get(id) {
            Some(p) => p.name.clone(),
            None => fallback.to_owned(),
        }
    }

    /// Records the API key `id`, which stores only the hash of the key; a
    /// record already under `id` is replaced.
    pub fn create_api_key(&mut self, id: String, name: String, key_hash: String, provider_id: String, now: String)
        requires
            old(self).wf(),
        ensures
            final(self).wf(),
            final(self).same_except_api_keys(old(self)),
            final(self).api_keys@.contains_key(id@),
            is_new_api_key(final(self).api_keys@[id@], id@, name@, key_hash@, provider_id@, now@),
            final(self).api_keys@.remove(id@) == old(self).api_keys@.remove(id@),
    {
        let key = id.clone();
        let k = ApiKey { id, name, key_hash, provider_id, created_at: now.clone(), updated_at: now };
        let ghost kv = key@;
        self.api_keys.insert(key, k);
        proof {
            assert(self.api_keys@.remove(kv) =~= old(self).api_keys@.remove(kv));
        }
    }

    /// Removes the API key `id`; fails, changing nothing, when there is none.
    pub fn delete_api_key(&mut self, id: &str) -> (r: Result<(), Error>)
        requires
            old(self).wf(),
        ensures
            final(self).wf(),
            final(self).same_except_api_keys(old(self)),
            old(self).api_keys@.contains_key(id@) ==> r is Ok && final(self).api_keys@ == old(self).api_keys@.remove(id@),
            !old(self).api_keys@.contains_key(id@) ==> {
                &&& r matches Err(Error::NotFound(m)) && m@ == "API key "@ + id@ + " not found"@
                &&& *final(self) == *old(self)
            },
    {
        match self.api_keys.remove_entry(id) {
            Some(_) => Ok(()),
            None => Err(Error::NotFound(concat3("API key ", id, " not found"))),
        }
    }

    /// Registers the model `id` of the provider `provider_id`, enabled.
    /// Fails, changing nothing, when the provider is unknown.
    pub fn create_model(&mut self, id: String, name: String, provider_id: String, model_name: String, now: String) -> (r: Result<(), Error>)
        requires
            old(self).wf(),
        ensures
            final(self).wf(),
            final(self).same_except_models(old(self)),
            !old(self).providers@.contains_key(provider_id@) ==> {
                &&& r matches Err(Error::NotFound(m)) && m@ == "Provider "@ + provider_id@ + " not found"@
                &&& *final(self) == *old(self)
            },
            old(self).providers@.contains_key(provider_id@) ==> {
                &&& r is Ok
                &&& final(self).models@.contains_key(id@)
                &&& is_new_model(final(self).models@[id@], id@, name@, provider_id@, model_name@, now@)
                &&& final(self).models@.remove(id@) == old(self).models@.remove(id@)
            },
    {
        if !self.providers.contains_key(provider_id.as_str()) {
            return Err(Error::NotFound(concat3("Provider ", provider_id.as_str(), " not found")));
        }
        self.put_model(id, name, provider_id, model_name, now);
        Ok(())
    }

    /// Registers the model `id` of the provider `provider_id`, enabled,
    /// whether or not the provider is known; a model already under `id` is
    /// replaced.
    pub fn put_model(&mut self, id: String, name: String, provider_id: String, model_name: String, now: String)
        requires
            old(self).wf(),
        ensures
            final(self).wf(),
            final(self).same_except_models(old(self)),
            final(self).models@.contains_key(id@),
            is_new_model(final(self).models@[id@], id@, name@, provider_id@, model_name@, now@),
            final(self).models@.remove(id@) == old(self).models@.remove(id@),
    {
        let key = id.clone();
        let m = Model { id, name, provider_id, model_name, enabled: true, created_at: now.clone(), updated_at: now };
        let ghost kv = key@;
        self.models.insert(key, m);
        proof {
            assert(self.models@.remove(kv) =~= old(self).models@.remove(kv));
        }
    }

    /// Turns the model `id` on or off and stamps it with `now`. Fails,
    /// changing nothing, when there is no such model.
    pub fn set_model_enabled(&mut self, id: &str, enabled: bool, now: String) -> (r: Result<(), Error>)
        requires
            old(self).wf(),
        ensures
            final(self).wf(),
            final(self).same_except_models(old(self)),
            old(self).models@.contains_key(id@) ==> {
                &&& r is Ok
                &&& final(self).models@ == old(self).models@.insert(
                    id@,
                    Model { enabled: enabled, updated_at: now, ..old(self).models@[id@] },
                )
                &&& final(self).models.keys() == old(self).models.keys()
            },
            !old(self).models@.contains_key(id@) ==> {
                &&& r matches Err(Error::NotFound(m)) && m@ == "Model "@ + id@ + " not found"@
                &&& *final(self) == *old(self)
            },
    {
        match self.models.remove_entry(id) {
            Some((i, key, m)) => {
                let updated = Model { enabled, updated_at: now, ..m };
                self.models.insert_at(i, key, updated);
                proof {
                    assert(old(self).models.keys().remove(i as int).insert(i as int, id@) =~= old(self).models.keys()) by {
                        old(self).models.lemma_index_of(i as int);
                    }
                    assert(self.models@ =~= old(self).models@.insert(id@, Model { enabled: enabled, updated_at: now, ..old(self).models@[id@] }));
                }
                Ok(())
            },
            None => Err(Error::NotFound(concat3("Model ", id, " not found"))),
        }
    }

    /// Removes the model `id` and every agent's binding to it. Fails,
    /// changing nothing, when there is no such model.
    pub fn delete_model(&mut self, id: &str) -> (r: Result<(), Error>)
        requires
            old(self).wf(),
        ensures
            final(self).wf(),
            final(self).same_except_agents_models(old(self)),
            old(self).models@.contains_key(id@) ==> {
                &&& r is Ok
                &&& final(self).models@ == old(self).models@.remove(id@)
                &&& final(self).agents.keys() == old(self).agents.keys()
                &&& final(self).agents@.dom() == old(self).agents@.dom()
                &&& forall|k: Seq<char>| #[trigger] old(self).agents@.contains_key(k) ==>
                    final(self).agents@[k] == clear_model(old(self).agents@[k], id@)
            },
            !old(self).models@.contains_key(id@) ==> {
                &&& r matches Err(Error::NotFound(m)) && m@ == "Model "@ + id@ + " not found"@
                &&& *final(self) == *old(self)
            },
    {
        match self.models.remove_entry(id) {
            Some(_) => {
                self.clear_model_bindings(id);
                Ok(())
            },
            None => Err(Error::NotFound(concat3("Model ", id, " not found"))),
        }
    }
}


/// Addresses in two subnets with different numbers differ.
pub proof fn lemma_subnet_address_injective(base: Seq<char>, n1: nat, n2: nat, host: Seq<char>)
    ensures
        n1 != n2 ==> subnet_address(base, n1, host) != subnet_address(base, n2, host),
{
    if n1 != n2 {
        crate::text::lemma_decimal_injective(n1, n2);
        reveal_strlit(".");
        let d1 = decimal(n1);
        let d2 = decimal(n2);
        let s1 = subnet_address(base, n1, host);
        let s2 = subnet_address(base, n2, host);
        let p: int = base.len() as int + 1;
        if s1 == s2 {
            assert(s1.len() == p + d1.len() + 1 + host.len());
            assert(s2.len() == p + d2.len() + 1 + host.len());
            assert(s1.subrange(p, p + d1.len() as int) =~= d1);
            assert(s2.subrange(p, p + d2.len() as int) =~= d2);
        }
    }
}

/// Deleting an agent right after creating it gives back the agents there
/// were, and changes nothing else.
pub proof fn law_delete_undoes_create(
    s0: State,
    s1: State,
    s2: State,
    name: Seq<char>,
    forgejo_username: Option<Seq<char>>,
    token: Seq<char>,
    now: Seq<char>,
    r1: Result<(), Error>,
    r2: Result<(), Error>,
)
    requires
        !s0.agents@.contains_key(name),
        create_agent_post(s0, s1, name, forgejo_username, token, now, r1),
        delete_agent_post(s1, s2, name, r2),
    ensures
        r1 is Ok,
        r2 is Ok,
        s2.agents@ == s0.agents@,
        s2.same_except_agents(&s0),
{
}

/// Two agents created one after the other get different container
/// addresses and different host addresses.
pub proof fn law_successive_agents_get_distinct_addresses(
    s0: State,
    s1: State,
    s2: State,
    a: Seq<char>,
    b: Seq<char>,
    fa: Option<Seq<char>>,
    fb: Option<Seq<char>>,
    ta: Seq<char>,
    tb: Seq<char>,
    now1: Seq<char>,
    now2: Seq<char>,
    r1: Result<(), Error>,
    r2: Result<(), Error>,
)
    requires
        create_agent_post(s0, s1, a, fa, ta, now1, r1),
        create_agent_post(s1, s2, b, fb, tb, now2, r2),
        r1 is Ok,
        r2 is Ok,
    ensures
        s2.agents@.contains_key(a),
        s2.agents@.contains_key(b),
        s2.agents@[a].container_ip@ != s2.agents@[b].container_ip@,
        s2.agents@[a].host_ip@ != s2.agents@[b].host_ip@,
{
    assert(s1.agents@.contains_key(a));
    assert(a != b);
    assert(s2.agents@.remove(b).contains_key(a));
    assert(s2.agents@[a] == s1.agents@[a]) by {
        assert(s2.agents@.remove(b)[a] == s2.agents@[a]);
    }
    assert(s1.agents.count() == s0.agents.count() + 1) by {
        assert(s1.agents.keys() == s0.agents.keys().push(a));
    }
    let base = s0.defaults.container_subnet_base@;
    assert(s1.defaults == s0.defaults);
    lemma_subnet_address_injective(base, s0.agents.count() + 1, s1.agents.count() + 1, "2"@);
    lemma_subnet_address_injective(base, s0.agents.count() + 1, s1.agents.count() + 1, "1"@);
}


/// After a model is deleted, no agent is bound to it; agents bound to other
/// models keep their binding.
pub proof fn law_deleted_model_has_no_bindings(before: State, after: State, id: Seq<char>, k: Seq<char>)
    requires
        before.models@.contains_key(id),
        before.agents@.contains_key(k),
        after.agents@[k] == clear_model(before.agents@[k], id),
    ensures
        after.agents@[k].model_id.deep_view() != Some(id),
        before.agents@[k].model_id.deep_view() != Some(id) ==> after.agents@[k] == before.agents@[k],
{
}

} // verus!

//! The Forgejo accounts the manager keeps, their binding to agents, and the
//! merging of an imported configuration into the state.

use vstd::prelude::*;
use crate::models::{Agent, Error, ForgejoUser, State};
use crate::table::Table;
use crate::text::str_eq;

verus! {

/// The message of a refused second account under one user name.
pub open spec fn duplicate_user_message() -> Seq<char> {
    "UNIQUE constraint failed: forgejo_users.username"@
}

/// A copy of an account.
fn copy_user(u: &ForgejoUser) -> (r: ForgejoUser)
    ensures
        r == *u,
{
    ForgejoUser {
        username: u.username.clone(),
        password: u.password.clone(),
        email: u.email.clone(),
        created_at: u.created_at.clone(),
    }
}

/// `after` agrees with `before` on everything but the Forgejo accounts.
pub open spec fn same_except_users(after: State, before: State) -> bool {
    &&& after.version == before.version
    &&& after.defaults == before.defaults
    &&& after.agents == before.agents
    &&& after.providers == before.providers
    &&& after.api_keys == before.api_keys
    &&& after.skills == before.skills
    &&& after.tools == before.tools
    &&& after.models == before.models
    &&& after.admin_token == before.admin_token
}

/// `a` is agent `before` bound to Forgejo account `username` and stamped
/// `now`.
pub open spec fn bound_as(a: Agent, before: Agent, username: Seq<char>, now: Seq<char>) -> bool {
    &&& a.forgejo_username.deep_view() == Some(username)
    &&& a.updated_at@ == now
    &&& a.enabled == before.enabled
    &&& a.container_ip == before.container_ip
    &&& a.host_ip == before.host_ip
    &&& a.internal_token == before.internal_token
    &&& a.model_id == before.model_id
    &&& a.created_at == before.created_at
}

/// The position of the first agent of `es`, at or after `i`, bound to
/// Forgejo account `username`.
pub open spec fn agent_of_user_from(es: Seq<(Seq<char>, Agent)>, username: Seq<char>, i: int) -> Option<int>
    decreases es.len() - i,
{
    if i < 0 || i >= es.len() {
        None
    } else if es[i].1.forgejo_username.deep_view() == Some(username) {
        Some(i)
    } else {
        agent_of_user_from(es, username, i + 1)
    }
}

/// The name of the first agent bound to Forgejo account `username`, if any.
pub fn agent_by_forgejo_user(state: &State, username: &str) -> (r: Option<String>)
    ensures
        match agent_of_user_from(state.agents.entries_view(), username@, 0) {
            Some(i) => r matches Some(n) && n@ == state.agents.keys()[i],
            None => r is None,
        },
{
    let n = state.agents.len();
    let ghost es = state.agents.entries_view();
    let mut i: usize = 0;
    while i < n
        invariant
            i <= n,
            n == es.len(),
            es == state.agents.entries_view(),
            agent_of_user_from(es, username@, 0) == agent_of_user_from(es, username@, i as int),
        decreases n - i,
    {
        let a = state.agents.value_at(i);
        let bound = match &a.forgejo_username {
            Some(u) => str_eq(u.as_str(), username),
            None => false,
        };
        if bound {
            return Some(state.agents.key_at(i).clone());
        }
        i = i + 1;
    }
    None
}

impl State {
    /// Records the Forgejo account `username`; a second account under the
    /// same name is refused, changing nothing.
    pub fn add_forgejo_user(&mut self, username: String, password: String, email: String, now: String) -> (r: Result<(), Error>)
        requires
            old(self).wf(),
        ensures
            final(self).wf(),
            old(self).forgejo_users@.contains_key(username@) ==> {
                &&& r matches Err(Error::Database(m)) && m@ == duplicate_user_message()
                &&& *final(self) == *old(self)
            },
            !old(self).forgejo_users@.contains_key(username@) ==> {
                &&& r is Ok
                &&& same_except_users(*final(self), *old(self))
                &&& final(self).forgejo_users@ == old(self).forgejo_users@.insert(
                    username@,
                    ForgejoUser { username, password, email, created_at: now },
                )
            },
    {
        if self.forgejo_users.contains_key(username.as_str()) {
            return Err(Error::Database("UNIQUE constraint failed: forgejo_users.username".to_owned()));
        }
        let key = username.clone();
        let u = ForgejoUser { username, password, email, created_at: now };
        self.forgejo_users.insert(key, u);
        Ok(())
    }

    /// Forgets the Forgejo account `username`, if it is recorded.
    pub fn remove_forgejo_user(&mut self, username: &str)
        requires
            old(self).wf(),
        ensures
            final(self).wf(),
            same_except_users(*final(self), *old(self)),
            final(self).forgejo_users@ == old(self).forgejo_users@.remove(username@),
    {
        self.forgejo_users.remove(username);
    }

    /// Binds agent `agent_name` to the recorded Forgejo account `username`
    /// and stamps it with `now`. Fails, changing nothing, when the agent or
    /// (looked up second) the account is unknown.
    pub fn bind_forgejo_user(&mut self, agent_name: &str, username: &str, now: String) -> (r: Result<(), Error>)
        requires
            old(self).wf(),
        ensures
            final(self).wf(),
            !old(self).agents@.contains_key(agent_name@) ==> {
                &&& r matches Err(Error::NotFound(m)) && m@ == "Agent not found"@
                &&& *final(self) == *old(self)
            },
            old(self).agents@.contains_key(agent_name@) && !old(self).forgejo_users@.contains_key(username@) ==> {
                &&& r matches Err(Error::NotFound(m)) && m@ == "Forgejo user not found"@
                &&& *final(self) == *old(self)
            },
            old(self).agents@.contains_key(agent_name@) && old(self).forgejo_users@.contains_key(username@) ==> {
                &&& r is Ok
                &&& final(self).same_except_agents(&*old(self))
                &&& final(self).agents.keys() == old(self).agents.keys()
                &&& final(self).agents@.contains_key(agent_name@)
                &&& final(self).agents@.remove(agent_name@) == old(self).agents@.remove(agent_name@)
                &&& bound_as(final(self).agents@[agent_name@], old(self).agents@[agent_name@], username@, now@)
            },
    {
        let updated = match self.agents.get(agent_name) {
            None => return Err(Error::NotFound("Agent not found".to_owned())),
            Some(a) => {
                if !self.forgejo_users.contains_key(username) {
                    return Err(Error::NotFound("Forgejo user not found".to_owned()));
                }
                Agent { forgejo_username: Some(username.to_owned()), updated_at: now, ..a.duplicate() }
            },
        };
        self.agents.insert(agent_name.to_owned(), updated);
        Ok(())
    }

    /// Unbinds agent `agent_name` from its Forgejo account and stamps it with
    /// `now`. Fails, changing nothing, when the agent is unknown.
    pub fn unbind_forgejo_user(&mut self, agent_name: &str, now: String) -> (r: Result<(), Error>)
        requires
            old(self).wf(),
        ensures
            final(self).wf(),
            !old(self).agents@.contains_key(agent_name@) ==> {
                &&& r matches Err(Error::NotFound(m)) && m@ == "Agent not found"@
                &&& *final(self) == *old(self)
            },
            old(self).agents@.contains_key(agent_name@) ==> {
                &&& r is Ok
                &&& final(self).same_except_agents(&*old(self))
                &&& final(self).agents.keys() == old(self).agents.keys()
                &&& final(self).agents@ == old(self).agents@.insert(
                    agent_name@,
                    Agent { forgejo_username: None, updated_at: now, ..old(self).agents@[agent_name@] },
                )
            },
    {
        let updated = match self.agents.get(agent_name) {
            None => return Err(Error::NotFound("Agent not found".to_owned())),
            Some(a) => Agent { forgejo_username: None, updated_at: now, ..a.duplicate() },
        };
        self.agents.insert(agent_name.to_owned(), updated);
        Ok(())
    }

    /// Merges an imported configuration: its defaults replace the state's,
    /// and its agents and accounts are added where the state has none under
    /// their names; what the state has is kept.
    pub fn import_config(&mut self, incoming: &State)
        requires
            old(self).wf(),
            incoming.wf(),
        ensures
            final(self).wf(),
            final(self).defaults == incoming.defaults,
            final(self).agents@ == incoming.agents@.union_prefer_right(old(self).agents@),
            final(self).forgejo_users@ == incoming.forgejo_users@.union_prefer_right(old(self).forgejo_users@),
            final(self).providers == old(self).providers,
            final(self).api_keys == old(self).api_keys,
            final(self).skills == old(self).skills,
            final(self).tools == old(self).tools,
            final(self).models == old(self).models,
    {
        self.defaults = crate::models::Defaults {
            port: incoming.defaults.port,
            container_subnet_base: incoming.defaults.container_subnet_base.clone(),
            forgejo_url: incoming.defaults.forgejo_url.clone(),
            forgejo_token: incoming.defaults.forgejo_token.clone(),
        };
        merge_missing_agents(&mut self.agents, &incoming.agents);
        merge_missing_users(&mut self.forgejo_users, &incoming.forgejo_users);
    }
}

/// Adds to `t` each agent of `from` whose name it does not have.
fn merge_missing_agents(t: &mut Table<Agent>, from: &Table<Agent>)
    requires
        old(t).wf(),
        from.wf(),
    ensures
        final(t).wf(),
        final(t)@ == from@.union_prefer_right(old(t)@),
{
    let n = from.len();
    let mut i: usize = 0;
    while i < n
        invariant
            i <= n,
            n == from.count(),
            from.wf(),
            t.wf(),
            forall|k: Seq<char>| #[trigger] old(t)@.contains_key(k) ==> t@.contains_key(k) && t@[k] == old(t)@[k],
            forall|j: int|
                0 <= j < i ==> t@.contains_key(#[trigger] from.keys()[j]) && (!old(t)@.contains_key(from.keys()[j])
                    ==> t@[from.keys()[j]] == from@[from.keys()[j]]),
            forall|k: Seq<char>| #[trigger] t@.contains_key(k) ==> old(t)@.contains_key(k) || exists|j: int| 0 <= j < i && from.keys()[j] == k,
        decreases n - i,
    {
        proof {
            from.lemma_index_of(i as int);
        }
        let k = from.key_at(i);
        if !t.contains_key(k.as_str()) {
            let a = from.value_at(i).duplicate();
            t.insert(k.clone(), a);
        }
        proof {
            assert forall|x: Seq<char>| #[trigger] t@.contains_key(x) implies old(t)@.contains_key(x) || exists|j: int| 0 <= j < i + 1 && from.keys()[j] == x by {
                if x == from.keys()[i as int] {
                    assert(from.keys()[i as int] == x);
                }
            }
        }
        i = i + 1;
    }
    proof {
        assert forall|k: Seq<char>| #[trigger] from@.union_prefer_right(old(t)@).contains_key(k) implies t@.contains_key(k) by {
            if !old(t)@.contains_key(k) {
                let j = from.index_of(k);
                assert(0 <= j < from.keys().len() && from.keys()[j] == k);
            }
        }
        assert forall|k: Seq<char>| #[trigger] t@.contains_key(k) implies from@.union_prefer_right(old(t)@).contains_key(k) && t@[k] == from@.union_prefer_right(old(t)@)[k] by {
            if !old(t)@.contains_key(k) {
                let j = choose|j: int| 0 <= j < n && from.keys()[j] == k;
                from.lemma_index_of(j);
            }
        }
        assert(t@ =~= from@.union_prefer_right(old(t)@));
    }
}

/// Adds to `t` each account of `from` whose user name it does not have.
fn merge_missing_users(t: &mut Table<ForgejoUser>, from: &Table<ForgejoUser>)
    requires
        old(t).wf(),
        from.wf(),
    ensures
        final(t).wf(),
        final(t)@ == from@.union_prefer_right(old(t)@),
{
    let n = from.len();
    let mut i: usize = 0;
    while i < n
        invariant
            i <= n,
            n == from.count(),
            from.wf(),
            t.wf(),
            forall|k: Seq<char>| #[trigger] old(t)@.contains_key(k) ==> t@.contains_key(k) && t@[k] == old(t)@[k],
            forall|j: int|
                0 <= j < i ==> t@.contains_key(#[trigger] from.keys()[j]) && (!old(t)@.contains_key(from.keys()[j])
                    ==> t@[from.keys()[j]] == from@[from.keys()[j]]),
            forall|k: Seq<char>| #[trigger] t@.contains_key(k) ==> old(t)@.contains_key(k) || exists|j: int| 0 <= j < i && from.keys()[j] == k,
        decreases n - i,
    {
        proof {
            from.lemma_index_of(i as int);
        }
        let k = from.key_at(i);
        if !t.contains_key(k.as_str()) {
            let u = copy_user(from.value_at(i));
            t.insert(k.clone(), u);
        }
        proof {
            assert forall|x: Seq<char>| #[trigger] t@.contains_key(x) implies old(t)@.contains_key(x) || exists|j: int| 0 <= j < i + 1 && from.keys()[j] == x by {
                if x == from.keys()[i as int] {
                    assert(from.keys()[i as int] == x);
                }
            }
        }
        i = i + 1;
    }
    proof {
        assert forall|k: Seq<char>| #[trigger] from@.union_prefer_right(old(t)@).contains_key(k) implies t@.contains_key(k) by {
            if !old(t)@.contains_key(k) {
                let j = from.index_of(k);
                assert(0 <= j < from.keys().len() && from.keys()[j] == k);
            }
        }
        assert forall|k: Seq<char>| #[trigger] t@.contains_key(k) implies from@.union_prefer_right(old(t)@).contains_key(k) && t@[k] == from@.union_prefer_right(old(t)@)[k] by {
            if !old(t)@.contains_key(k) {
                let j = choose|j: int| 0 <= j < n && from.keys()[j] == k;
                from.lemma_index_of(j);
            }
        }
        assert(t@ =~= from@.union_prefer_right(old(t)@));
    }
}

/// Importing a configuration a second time changes nothing more: the
/// agents and accounts after the second import are those after the first.
pub proof fn law_import_twice_same_as_once(
    before: State,
    incoming: State,
    once: State,
    twice: State,
)
    requires
        once.agents@ == incoming.agents@.union_prefer_right(before.agents@),
        once.forgejo_users@ == incoming.forgejo_users@.union_prefer_right(before.forgejo_users@),
        twice.agents@ == incoming.agents@.union_prefer_right(once.agents@),
        twice.forgejo_users@ == incoming.forgejo_users@.union_prefer_right(once.forgejo_users@),
    ensures
        twice.agents@ == once.agents@,
        twice.forgejo_users@ == once.forgejo_users@,
{
    assert(twice.agents@ =~= once.agents@);
    assert(twice.forgejo_users@ =~= once.forgejo_users@);
}

/// Importing the state's own configuration keeps every agent and account as
/// it was.
pub proof fn law_importing_own_config_keeps_records(state: State, after: State)
    requires
        after.agents@ == state.agents@.union_prefer_right(state.agents@),
        after.forgejo_users@ == state.forgejo_users@.union_prefer_right(state.forgejo_users@),
    ensures
        after.agents@ == state.agents@,
        after.forgejo_users@ == state.forgejo_users@,
{
    assert(after.agents@ =~= state.agents@);
    assert(after.forgejo_users@ =~= state.forgejo_users@);
}

} // verus!

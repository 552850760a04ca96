//! Skills and tools: who owns them, who may invoke them, and the rules for
//! granting and revoking that right.

use vstd::prelude::*;
use crate::models::{Error, Skill, SkillMetadata, SkillType, State, Tool, ToolMetadata};
use crate::text::{concat3, contains_name, names_of, str_eq, without_name};

verus! {

/// Whether `caller` may invoke a skill owned by `owner` and shared with
/// `allowed`.
pub open spec fn may_invoke(owner: Seq<char>, allowed: Seq<Seq<char>>, caller: Seq<char>) -> bool {
    owner == caller || allowed.contains(caller)
}

/// The names a record is shared with after `agent` is granted access.
pub open spec fn granted(allowed: Seq<Seq<char>>, agent: Seq<char>) -> Seq<Seq<char>> {
    if allowed.contains(agent) {
        allowed
    } else {
        allowed.push(agent)
    }
}

/// The names a record is shared with after `agent` loses access.
pub open spec fn revoked(allowed: Seq<Seq<char>>, agent: Seq<char>) -> Seq<Seq<char>> {
    allowed.filter(|x: Seq<char>| x != agent)
}

/// Whether `caller` may invoke `skill`: its owner may, and so may every
/// agent it is shared with.
pub fn check_skill_authorization(skill: &Skill, caller: &str) -> (b: bool)
    ensures
        b == may_invoke(skill.owner_agent@, names_of(skill.allowed_agents@), caller@),
{
    if str_eq(skill.owner_agent.as_str(), caller) {
        return true;
    }
    contains_name(&skill.allowed_agents, caller)
}

/// Whether `caller` may invoke `tool`: its author may, and so may every
/// agent it is shared with.
pub fn check_tool_authorization(tool: &Tool, caller: &str) -> (b: bool)
    ensures
        b == may_invoke(tool.author_agent@, names_of(tool.allowed_agents@), caller@),
{
    if str_eq(tool.author_agent.as_str(), caller) {
        return true;
    }
    contains_name(&tool.allowed_agents, caller)
}

/// What a request of `caller` to run skill `id` comes to before anything
/// runs: refused where the skill is unknown, where the caller may not
/// invoke it, or where it is disabled (checked in that order); otherwise the
/// kind of script to run.
pub fn admit_skill_run(state: &State, id: &str, caller: &str) -> (r: Result<SkillType, String>)
    requires
        state.wf(),
    ensures
        !state.skills@.contains_key(id@) ==> (r matches Err(m) && m@ == "Skill '"@ + id@ + "' not found"@),
        state.skills@.contains_key(id@) ==> {
            let s = state.skills@[id@];
            let allowed = may_invoke(s.owner_agent@, names_of(s.allowed_agents@), caller@);
            &&& !allowed ==> (r matches Err(m) && m@ == "Agent '"@ + caller@ + "' is not authorized to invoke this skill"@)
            &&& allowed && !s.enabled ==> (r matches Err(m) && m@ == "Skill is disabled"@)
            &&& allowed && s.enabled ==> r == Ok::<SkillType, String>(s.skill_type)
        },
{
    match state.skills.get(id) {
        None => Err(concat3("Skill '", id, "' not found")),
        Some(s) => {
            if !check_skill_authorization(s, caller) {
                return Err(concat3("Agent '", caller, "' is not authorized to invoke this skill"));
            }
            if !s.enabled {
                return Err("Skill is disabled".to_owned());
            }
            Ok(s.skill_type)
        },
    }
}

/// What a request to run tool `slug`, on behalf of `caller` where one is
/// named, comes to before anything runs: refused where the tool is unknown,
/// where the named caller may not invoke it, or where it is disabled
/// (checked in that order).
pub fn admit_tool_run(state: &State, slug: &str, caller: Option<&str>) -> (r: Result<(), String>)
    requires
        state.wf(),
    ensures
        !state.tools@.contains_key(slug@) ==> (r matches Err(m) && m@ == "Tool '"@ + slug@ + "' not found"@),
        state.tools@.contains_key(slug@) ==> {
            let t = state.tools@[slug@];
            let allowed = match caller {
                Some(c) => may_invoke(t.author_agent@, names_of(t.allowed_agents@), c@),
                None => true,
            };
            &&& !allowed ==> (r matches Err(m) && caller matches Some(c) && m@ == "Agent '"@ + c@
                + "' is not authorized to invoke this tool"@)
            &&& allowed && !t.enabled ==> (r matches Err(m) && m@ == "Tool is disabled"@)
            &&& allowed && t.enabled ==> r is Ok
        },
{
    match state.tools.get(slug) {
        None => Err(concat3("Tool '", slug, "' not found")),
        Some(t) => {
            match caller {
                Some(c) => {
                    if !check_tool_authorization(t, c) {
                        return Err(concat3("Agent '", c, "' is not authorized to invoke this tool"));
                    }
                },
                None => {},
            }
            if !t.enabled {
                return Err("Tool is disabled".to_owned());
            }
            Ok(())
        },
    }
}

/// What a granting of `agent` to skill `id` at `now` does to the state.
pub open spec fn skill_grant_post(before: State, after: State, id: Seq<char>, agent: Seq<char>, now: Seq<char>, r: Result<(), Error>) -> bool {
    &&& !before.agents@.contains_key(agent) ==> (r matches Err(Error::AgentNotFound(n)) && n@ == agent) && after == before
    &&& before.agents@.contains_key(agent) && !before.skills@.contains_key(id) ==>
        (r matches Err(Error::NotFound(m)) && m@ == "Skill '"@ + id + "' not found"@) && after == before
    &&& before.agents@.contains_key(agent) && before.skills@.contains_key(id) ==> {
        &&& r is Ok
        &&& after.same_except_skills(&before)
        &&& after.skills.keys() == before.skills.keys()
        &&& after.skills@.dom() == before.skills@.dom()
        &&& forall|k: Seq<char>| before.skills@.contains_key(k) && k != id ==> #[trigger] after.skills@[k] == before.skills@[k]
        &&& names_of(after.skills@[id].allowed_agents@) == granted(names_of(before.skills@[id].allowed_agents@), agent)
        &&& names_of(before.skills@[id].allowed_agents@).contains(agent) ==> after == before
        &&& !names_of(before.skills@[id].allowed_agents@).contains(agent) ==> after.skills@[id].updated_at@ == now
        &&& after.skills@[id].owner_agent == before.skills@[id].owner_agent
        &&& after.skills@[id].enabled == before.skills@[id].enabled
    }
}

/// What a revoking of `agent` from skill `id` at `now` does to the state.
pub open spec fn skill_revoke_post(before: State, after: State, id: Seq<char>, agent: Seq<char>, now: Seq<char>, r: Result<(), Error>) -> bool {
    &&& !before.skills@.contains_key(id) ==>
        (r matches Err(Error::NotFound(m)) && m@ == "Skill '"@ + id + "' not found"@) && after == before
    &&& before.skills@.contains_key(id) ==> {
        &&& r is Ok
        &&& after.same_except_skills(&before)
        &&& after.skills.keys() == before.skills.keys()
        &&& after.skills@.dom() == before.skills@.dom()
        &&& forall|k: Seq<char>| before.skills@.contains_key(k) && k != id ==> #[trigger] after.skills@[k] == before.skills@[k]
        &&& names_of(after.skills@[id].allowed_agents@) == revoked(names_of(before.skills@[id].allowed_agents@), agent)
        &&& after.skills@[id].updated_at@ == now
        &&& after.skills@[id].owner_agent == before.skills@[id].owner_agent
        &&& after.skills@[id].enabled == before.skills@[id].enabled
    }
}

impl State {
    /// `self` and `o` agree on everything but the skills.
    pub open spec fn same_except_skills(&self, o: &State) -> bool {
        &&& self.version == o.version
        &&& self.defaults == o.defaults
        &&& self.agents == o.agents
        &&& self.providers == o.providers
        &&& self.api_keys == o.api_keys
        &&& self.forgejo_users == o.forgejo_users
        &&& self.tools == o.tools
        &&& self.models == o.models
        &&& self.admin_token == o.admin_token
    }

    /// `self` and `o` agree on everything but the tools.
    pub open spec fn same_except_tools(&self, o: &State) -> bool {
        &&& self.version == o.version
        &&& self.defaults == o.defaults
        &&& self.agents == o.agents
        &&& self.providers == o.providers
        &&& self.api_keys == o.api_keys
        &&& self.forgejo_users == o.forgejo_users
        &&& self.skills == o.skills
        &&& self.models == o.models
        &&& self.admin_token == o.admin_token
    }

    /// Shares skill `id` with the agent `agent_name`. Nothing changes when
    /// the agent already has access; otherwise the agent is appended and the
    /// skill stamped with `now`. Fails, changing nothing, when the agent or
    /// the skill is unknown (the agent is looked up first).
    pub fn authorize_skill(&mut self, id: &str, agent_name: &str, now: String) -> (r: Result<(), Error>)
        requires
            old(self).wf(),
        ensures
            final(self).wf(),
            skill_grant_post(*old(self), *final(self), id@, agent_name@, now@, r),
    {
        if !self.agents.contains_key(agent_name) {
            return Err(Error::AgentNotFound(agent_name.to_owned()));
        }
        match self.skills.get(id) {
            None => {
                return Err(Error::NotFound(concat3("Skill '", id, "' not found")));
            },
            Some(skill) => {
                if contains_name(&skill.allowed_agents, agent_name) {
                    return Ok(());
                }
            },
        }
        match self.skills.remove_entry(id) {
            Some((i, key, skill)) => {
                let mut allowed = skill.allowed_agents;
                let ghost before_names = names_of(allowed@);
                allowed.push(agent_name.to_owned());
                proof {
                    assert(names_of(allowed@) =~= before_names.push(agent_name@));
                }
                let updated = Skill { allowed_agents: allowed, updated_at: now, ..skill };
                self.skills.insert_at(i, key, updated);
                proof {
                    assert(old(self).skills.keys().remove(i as int).insert(i as int, id@) =~= old(self).skills.keys()) by {
                        old(self).skills.lemma_index_of(i as int);
                    }
                    assert(self.skills@.dom() =~= old(self).skills@.dom());
                }
                Ok(())
            },
            None => Err(Error::NotFound(concat3("Skill '", id, "' not found"))),
        }
    }

    /// Withdraws skill `id` from the agent `agent_name` and stamps it with
    /// `now`. Fails, changing nothing, when the skill is unknown.
    pub fn revoke_skill(&mut self, id: &str, agent_name: &str, now: String) -> (r: Result<(), Error>)
        requires
            old(self).wf(),
        ensures
            final(self).wf(),
            skill_revoke_post(*old(self), *final(self), id@, agent_name@, now@, r),
    {
        match self.skills.remove_entry(id) {
            Some((i, key, skill)) => {
                let allowed = without_name(skill.allowed_agents, agent_name);
                let updated = Skill { allowed_agents: allowed, updated_at: now, ..skill };
                self.skills.insert_at(i, key, updated);
                proof {
                    assert(old(self).skills.keys().remove(i as int).insert(i as int, id@) =~= old(self).skills.keys()) by {
                        old(self).skills.lemma_index_of(i as int);
                    }
                    assert(self.skills@.dom() =~= old(self).skills@.dom());
                }
                Ok(())
            },
            None => Err(Error::NotFound(concat3("Skill '", id, "' not found"))),
        }
    }
}


/// Granting access to a skill lets the agent invoke it.
pub proof fn law_skill_grant_gives_access(before: State, after: State, id: Seq<char>, agent: Seq<char>, now: Seq<char>, r: Result<(), Error>)
    requires
        skill_grant_post(before, after, id, agent, now, r),
        r is Ok,
    ensures
        after.skills@.contains_key(id),
        may_invoke(after.skills@[id].owner_agent@, names_of(after.skills@[id].allowed_agents@), agent),
{
    let names = names_of(before.skills@[id].allowed_agents@);
    if !names.contains(agent) {
        assert(names.push(agent)[names.len() as int] == agent);
    }
}

/// Granting the same agent access to the same skill twice changes nothing
/// the second time.
pub proof fn law_skill_grant_idempotent(
    s0: State,
    s1: State,
    s2: State,
    id: Seq<char>,
    agent: Seq<char>,
    now1: Seq<char>,
    now2: Seq<char>,
    r1: Result<(), Error>,
    r2: Result<(), Error>,
)
    requires
        skill_grant_post(s0, s1, id, agent, now1, r1),
        skill_grant_post(s1, s2, id, agent, now2, r2),
        r1 is Ok,
    ensures
        s2 == s1,
        r2 is Ok,
{
    assert(s1.skills@.contains_key(id));
    assert(s1.agents == s0.agents);
    let names = names_of(s0.skills@[id].allowed_agents@);
    if !names.contains(agent) {
        assert(names.push(agent)[names.len() as int] == agent);
    }
    assert(names_of(s1.skills@[id].allowed_agents@).contains(agent));
}

/// After access to a skill is revoked, the agent may no longer invoke it,
/// unless it owns the skill.
pub proof fn law_skill_revoke_removes_access(before: State, after: State, id: Seq<char>, agent: Seq<char>, now: Seq<char>, r: Result<(), Error>)
    requires
        skill_revoke_post(before, after, id, agent, now, r),
        r is Ok,
        before.skills@[id].owner_agent@ != agent,
    ensures
        after.skills@.contains_key(id),
        !may_invoke(after.skills@[id].owner_agent@, names_of(after.skills@[id].allowed_agents@), agent),
{
    let f = |x: Seq<char>| x != agent;
    let names = names_of(before.skills@[id].allowed_agents@);
    assert forall|i: int| 0 <= i < names.filter(f).len() implies names.filter(f)[i] != agent by {
        names.lemma_filter_pred(f, i);
    }
}

/// What a granting of `agent` to tool `slug` at `now` does to the state.
pub open spec fn tool_grant_post(before: State, after: State, slug: Seq<char>, agent: Seq<char>, now: Seq<char>, r: Result<(), Error>) -> bool {
    &&& !before.agents@.contains_key(agent) ==> (r matches Err(Error::AgentNotFound(n)) && n@ == agent) && after == before
    &&& before.agents@.contains_key(agent) ==> tool_share_post(before, after, slug, agent, now, r)
}

/// What sharing tool `slug` with `agent` at `now` does to the state, whether
/// or not the agent is known.
pub open spec fn tool_share_post(before: State, after: State, slug: Seq<char>, agent: Seq<char>, now: Seq<char>, r: Result<(), Error>) -> bool {
    &&& !before.tools@.contains_key(slug) ==>
        (r matches Err(Error::NotFound(m)) && m@ == "Tool '"@ + slug + "' not found"@) && after == before
    &&& before.tools@.contains_key(slug) ==> {
        &&& r is Ok
        &&& after.same_except_tools(&before)
        &&& after.tools.keys() == before.tools.keys()
        &&& after.tools@.dom() == before.tools@.dom()
        &&& forall|k: Seq<char>| before.tools@.contains_key(k) && k != slug ==> #[trigger] after.tools@[k] == before.tools@[k]
        &&& names_of(after.tools@[slug].allowed_agents@) == granted(names_of(before.tools@[slug].allowed_agents@), agent)
        &&& names_of(before.tools@[slug].allowed_agents@).contains(agent) ==> after == before
        &&& !names_of(before.tools@[slug].allowed_agents@).contains(agent) ==> after.tools@[slug].updated_at@ == now
        &&& after.tools@[slug].author_agent == before.tools@[slug].author_agent
        &&& after.tools@[slug].enabled == before.tools@[slug].enabled
    }
}

/// What a revoking of `agent` from tool `slug` at `now` does to the state.
pub open spec fn tool_revoke_post(before: State, after: State, slug: Seq<char>, agent: Seq<char>, now: Seq<char>, r: Result<(), Error>) -> bool {
    &&& !before.tools@.contains_key(slug) ==>
        (r matches Err(Error::NotFound(m)) && m@ == "Tool '"@ + slug + "' not found"@) && after == before
    &&& before.tools@.contains_key(slug) ==> {
        &&& r is Ok
        &&& after.same_except_tools(&before)
        &&& after.tools.keys() == before.tools.keys()
        &&& after.tools@.dom() == before.tools@.dom()
        &&& forall|k: Seq<char>| before.tools@.contains_key(k) && k != slug ==> #[trigger] after.tools@[k] == before.tools@[k]
        &&& names_of(after.tools@[slug].allowed_agents@) == revoked(names_of(before.tools@[slug].allowed_agents@), agent)
        &&& after.tools@[slug].updated_at@ == now
        &&& after.tools@[slug].author_agent == before.tools@[slug].author_agent
        &&& after.tools@[slug].enabled == before.tools@[slug].enabled
    }
}

/// Granting access to a tool lets the agent invoke it.
pub proof fn law_tool_grant_gives_access(before: State, after: State, slug: Seq<char>, agent: Seq<char>, now: Seq<char>, r: Result<(), Error>)
    requires
        tool_grant_post(before, after, slug, agent, now, r),
        r is Ok,
    ensures
        after.tools@.contains_key(slug),
        may_invoke(after.tools@[slug].author_agent@, names_of(after.tools@[slug].allowed_agents@), agent),
{
    let names = names_of(before.tools@[slug].allowed_agents@);
    if !names.contains(agent) {
        assert(names.push(agent)[names.len() as int] == agent);
    }
}

/// Granting the same agent access to the same tool twice changes nothing
/// the second time.
pub proof fn law_tool_grant_idempotent(
    s0: State,
    s1: State,
    s2: State,
    slug: Seq<char>,
    agent: Seq<char>,
    now1: Seq<char>,
    now2: Seq<char>,
    r1: Result<(), Error>,
    r2: Result<(), Error>,
)
    requires
        tool_grant_post(s0, s1, slug, agent, now1, r1),
        tool_grant_post(s1, s2, slug, agent, now2, r2),
        r1 is Ok,
    ensures
        s2 == s1,
        r2 is Ok,
{
    assert(s1.tools@.contains_key(slug));
    assert(s1.agents == s0.agents);
    let names = names_of(s0.tools@[slug].allowed_agents@);
    if !names.contains(agent) {
        assert(names.push(agent)[names.len() as int] == agent);
    }
    assert(names_of(s1.tools@[slug].allowed_agents@).contains(agent));
}

/// After access to a tool is revoked, the agent may no longer invoke it,
/// unless it wrote the tool.
pub proof fn law_tool_revoke_removes_access(before: State, after: State, slug: Seq<char>, agent: Seq<char>, now: Seq<char>, r: Result<(), Error>)
    requires
        tool_revoke_post(before, after, slug, agent, now, r),
        r is Ok,
        before.tools@[slug].author_agent@ != agent,
    ensures
        after.tools@.contains_key(slug),
        !may_invoke(after.tools@[slug].author_agent@, names_of(after.tools@[slug].allowed_agents@), agent),
{
    let f = |x: Seq<char>| x != agent;
    let names = names_of(before.tools@[slug].allowed_agents@);
    assert forall|i: int| 0 <= i < names.filter(f).len() implies names.filter(f)[i] != agent by {
        names.lemma_filter_pred(f, i);
    }
}

impl State {
    /// Shares tool `slug` with the agent `agent_name`, known or not. Nothing
    /// changes when the agent already has access; otherwise the agent is
    /// appended and the tool stamped with `now`. Fails, changing nothing,
    /// when the tool is unknown.
    pub fn share_tool(&mut self, slug: &str, agent_name: &str, now: String) -> (r: Result<(), Error>)
        requires
            old(self).wf(),
        ensures
            final(self).wf(),
            tool_share_post(*old(self), *final(self), slug@, agent_name@, now@, r),
    {
        match self.tools.get(slug) {
            None => {
                return Err(Error::NotFound(concat3("Tool '", slug, "' not found")));
            },
            Some(tool) => {
                if contains_name(&tool.allowed_agents, agent_name) {
                    return Ok(());
                }
            },
        }
        match self.tools.remove_entry(slug) {
            Some((i, key, tool)) => {
                let mut allowed = tool.allowed_agents;
                let ghost before_names = names_of(allowed@);
                allowed.push(agent_name.to_owned());
                proof {
                    assert(names_of(allowed@) =~= before_names.push(agent_name@));
                }
                let updated = Tool { allowed_agents: allowed, updated_at: now, ..tool };
                self.tools.insert_at(i, key, updated);
                proof {
                    assert(old(self).tools.keys().remove(i as int).insert(i as int, slug@) =~= old(self).tools.keys()) by {
                        old(self).tools.lemma_index_of(i as int);
                    }
                    assert(self.tools@.dom() =~= old(self).tools@.dom());
                }
                Ok(())
            },
            None => Err(Error::NotFound(concat3("Tool '", slug, "' not found"))),
        }
    }

    /// Shares tool `slug` with the known agent `agent_name`, as `share_tool`
    /// does. Fails, changing nothing, when the agent or the tool is unknown
    /// (the agent is looked up first).
    pub fn authorize_tool(&mut self, slug: &str, agent_name: &str, now: String) -> (r: Result<(), Error>)
        requires
            old(self).wf(),
        ensures
            final(self).wf(),
            tool_grant_post(*old(self), *final(self), slug@, agent_name@, now@, r),
    {
        if !self.agents.contains_key(agent_name) {
            return Err(Error::AgentNotFound(agent_name.to_owned()));
        }
        self.share_tool(slug, agent_name, now)
    }

    /// Withdraws tool `slug` from the agent `agent_name` and stamps it with
    /// `now`. Fails, changing nothing, when the tool is unknown.
    pub fn revoke_tool(&mut self, slug: &str, agent_name: &str, now: String) -> (r: Result<(), Error>)
        requires
            old(self).wf(),
        ensures
            final(self).wf(),
            tool_revoke_post(*old(self), *final(self), slug@, agent_name@, now@, r),
    {
        match self.tools.remove_entry(slug) {
            Some((i, key, tool)) => {
                let allowed = without_name(tool.allowed_agents, agent_name);
                let updated = Tool { allowed_agents: allowed, updated_at: now, ..tool };
                self.tools.insert_at(i, key, updated);
                proof {
                    assert(old(self).tools.keys().remove(i as int).insert(i as int, slug@) =~= old(self).tools.keys()) by {
                        old(self).tools.lemma_index_of(i as int);
                    }
                    assert(self.tools@.dom() =~= old(self).tools@.dom());
                }
                Ok(())
            },
            None => Err(Error::NotFound(concat3("Tool '", slug, "' not found"))),
        }
    }

    /// Whether a tool `slug` by `author_agent` may be added: the slug must be
    /// free and the author a known agent (checked in that order).
    pub fn check_tool_registration(&self, slug: &str, author_agent: &str) -> (r: Result<(), String>)
        requires
            self.wf(),
        ensures
            self.tools@.contains_key(slug@) ==> (r matches Err(m) && m@ == "Tool '"@ + slug@ + "' already exists"@),
            !self.tools@.contains_key(slug@) && !self.agents@.contains_key(author_agent@) ==> (r matches Err(m) && m@
                == "Agent '"@ + author_agent@ + "' not found"@),
            !self.tools@.contains_key(slug@) && self.agents@.contains_key(author_agent@) ==> r is Ok,
    {
        if self.tools.contains_key(slug) {
            return Err(concat3("Tool '", slug, "' already exists"));
        }
        if !self.agents.contains_key(author_agent) {
            return Err(concat3("Agent '", author_agent, "' not found"));
        }
        Ok(())
    }

    /// Adds the tool `slug`, cloned from `forgejo_repo` at `git_commit` and
    /// described by `meta`: enabled, shared with its author only. A tool
    /// already under `slug` is replaced.
    pub fn register_tool(
        &mut self,
        slug: String,
        forgejo_repo: String,
        git_commit: String,
        meta: ToolMetadata,
        author_agent: String,
        now: String,
    )
        requires
            old(self).wf(),
        ensures
            final(self).wf(),
            final(self).same_except_tools(old(self)),
            final(self).tools@.contains_key(slug@),
            final(self).tools@.remove(slug@) == old(self).tools@.remove(slug@),
            ({
                let t = final(self).tools@[slug@];
                &&& t.slug@ == slug@
                &&& t.name == meta.name
                &&& t.version == meta.version
                &&& t.description == meta.description
                &&& t.entrypoint == meta.entrypoint
                &&& t.input_schema == meta.input_schema
                &&& t.output_schema == meta.output_schema
                &&& t.forgejo_repo == forgejo_repo
                &&& t.git_commit == git_commit
                &&& t.author_agent@ == author_agent@
                &&& names_of(t.allowed_agents@) == seq![author_agent@]
                &&& t.enabled
                &&& t.created_at@ == now@
                &&& t.updated_at@ == now@
            }),
    {
        let mut allowed: Vec<String> = Vec::new();
        allowed.push(author_agent.clone());
        proof {
            assert(names_of(allowed@) =~= seq![author_agent@]);
        }
        let key = slug.clone();
        let tool = Tool {
            slug,
            name: meta.name,
            version: meta.version,
            description: meta.description,
            forgejo_repo,
            git_commit,
            entrypoint: meta.entrypoint,
            input_schema: meta.input_schema,
            output_schema: meta.output_schema,
            author_agent,
            allowed_agents: allowed,
            enabled: true,
            created_at: now.clone(),
            updated_at: now,
        };
        let ghost kv = key@;
        self.tools.insert(key, tool);
        proof {
            assert(self.tools@.remove(kv) =~= old(self).tools@.remove(kv));
        }
    }

    /// Records a fresh pull of tool `slug`: its commit and the description in
    /// `meta` (its name stays), stamped with `now`. Fails, changing nothing,
    /// when the tool is unknown.
    pub fn update_pulled_tool(&mut self, slug: &str, git_commit: String, meta: ToolMetadata, now: String) -> (r: Result<(), Error>)
        requires
            old(self).wf(),
        ensures
            final(self).wf(),
            final(self).same_except_tools(old(self)),
            !old(self).tools@.contains_key(slug@) ==> {
                &&& r matches Err(Error::NotFound(m)) && m@ == "Tool '"@ + slug@ + "' not found"@
                &&& *final(self) == *old(self)
            },
            old(self).tools@.contains_key(slug@) ==> {
                &&& r is Ok
                &&& final(self).tools.keys() == old(self).tools.keys()
                &&& final(self).tools@ == old(self).tools@.insert(slug@, Tool {
                    git_commit: git_commit,
                    version: meta.version,
                    description: meta.description,
                    entrypoint: meta.entrypoint,
                    input_schema: meta.input_schema,
                    output_schema: meta.output_schema,
                    updated_at: now,
                    ..old(self).tools@[slug@]
                })
            },
    {
        match self.tools.remove_entry(slug) {
            Some((i, key, tool)) => {
                let updated = Tool {
                    git_commit,
                    version: meta.version,
                    description: meta.description,
                    entrypoint: meta.entrypoint,
                    input_schema: meta.input_schema,
                    output_schema: meta.output_schema,
                    updated_at: now,
                    ..tool
                };
                self.tools.insert_at(i, key, updated);
                proof {
                    assert(old(self).tools.keys().remove(i as int).insert(i as int, slug@) =~= old(self).tools.keys()) by {
                        old(self).tools.lemma_index_of(i as int);
                    }
                    assert(self.tools@ =~= old(self).tools@.insert(slug@, Tool {
                        git_commit: git_commit,
                        version: meta.version,
                        description: meta.description,
                        entrypoint: meta.entrypoint,
                        input_schema: meta.input_schema,
                        output_schema: meta.output_schema,
                        updated_at: now,
                        ..old(self).tools@[slug@]
                    }));
                }
                Ok(())
            },
            None => Err(Error::NotFound(concat3("Tool '", slug, "' not found"))),
        }
    }

    /// Removes the tool `slug`; fails, changing nothing, when there is none.
    pub fn delete_tool(&mut self, slug: &str) -> (r: Result<(), Error>)
        requires
            old(self).wf(),
        ensures
            final(self).wf(),
            final(self).same_except_tools(old(self)),
            old(self).tools@.contains_key(slug@) ==> r is Ok && final(self).tools@ == old(self).tools@.remove(slug@),
            !old(self).tools@.contains_key(slug@) ==> {
                &&& r matches Err(Error::NotFound(m)) && m@ == "Tool '"@ + slug@ + "' not found"@
                &&& *final(self) == *old(self)
            },
    {
        match self.tools.remove_entry(slug) {
            Some(_) => Ok(()),
            None => Err(Error::NotFound(concat3("Tool '", slug, "' not found"))),
        }
    }

    /// Adds the skill `id` of `owner_agent`: enabled, with no description,
    /// shared with its owner only. Fails, changing nothing, when the owner is
    /// not a known agent. A skill already under `id` is replaced.
    pub fn create_skill(
        &mut self,
        id: String,
        name: String,
        skill_type: SkillType,
        owner_agent: String,
        entrypoint: String,
        input_schema: Option<String>,
        output_schema: Option<String>,
        now: String,
    ) -> (r: Result<(), Error>)
        requires
            old(self).wf(),
        ensures
            final(self).wf(),
            final(self).same_except_skills(old(self)),
            old(self).skills@.contains_key(id@) ==> {
                &&& r matches Err(Error::Validation(m)) && m@ == "Skill '"@ + id@ + "' already exists"@
                &&& *final(self) == *old(self)
            },
            !old(self).skills@.contains_key(id@) && !old(self).agents@.contains_key(owner_agent@) ==> {
                &&& r matches Err(Error::AgentNotFound(n)) && n@ == owner_agent@
                &&& *final(self) == *old(self)
            },
            !old(self).skills@.contains_key(id@) && old(self).agents@.contains_key(owner_agent@) ==> {
                &&& r is Ok
                &&& final(self).skills@.contains_key(id@)
                &&& final(self).skills@.remove(id@) == old(self).skills@.remove(id@)
                &&& ({
                    let s = final(self).skills@[id@];
                    &&& s.id@ == id@
                    &&& s.name == name
                    &&& s.description@ == Seq::<char>::empty()
                    &&& s.version@ == Seq::<char>::empty()
                    &&& s.forgejo_repo@ == Seq::<char>::empty()
                    &&& s.git_commit@ == Seq::<char>::empty()
                    &&& s.skill_type == skill_type
                    &&& s.enabled
                    &&& s.owner_agent@ == owner_agent@
                    &&& names_of(s.allowed_agents@) == seq![owner_agent@]
                    &&& s.entrypoint == entrypoint
                    &&& s.input_schema == input_schema
                    &&& s.output_schema == output_schema
                    &&& s.created_at@ == now@
                    &&& s.updated_at@ == now@
                })
            },
    {
        if self.skills.contains_key(id.as_str()) {
            return Err(Error::Validation(concat3("Skill '", id.as_str(), "' already exists")));
        }
        if !self.agents.contains_key(owner_agent.as_str()) {
            return Err(Error::AgentNotFound(owner_agent));
        }
        let mut allowed: Vec<String> = Vec::new();
        allowed.push(owner_agent.clone());
        proof {
            assert(names_of(allowed@) =~= seq![owner_agent@]);
        }
        let key = id.clone();
        let skill = Skill {
            id,
            name,
            description: String::new(),
            version: String::new(),
            forgejo_repo: String::new(),
            git_commit: String::new(),
            skill_type,
            enabled: true,
            owner_agent,
            allowed_agents: allowed,
            entrypoint,
            input_schema,
            output_schema,
            created_at: now.clone(),
            updated_at: now,
        };
        let ghost kv = key@;
        self.skills.insert(key, skill);
        proof {
            assert(self.skills@.remove(kv) =~= old(self).skills@.remove(kv));
        }
        Ok(())
    }

    /// Whether skill `slug` by `author_agent` may be cloned: the slug must be
    /// free and the author a known agent (checked in that order).
    pub fn check_skill_registration(&self, slug: &str, author_agent: &str) -> (r: Result<(), String>)
        requires
            self.wf(),
        ensures
            self.skills@.contains_key(slug@) ==> (r matches Err(m) && m@ == "Skill '"@ + slug@ + "' already exists"@),
            !self.skills@.contains_key(slug@) && !self.agents@.contains_key(author_agent@) ==> (r matches Err(m) && m@
                == "Agent '"@ + author_agent@ + "' not found"@),
            !self.skills@.contains_key(slug@) && self.agents@.contains_key(author_agent@) ==> r is Ok,
    {
        if self.skills.contains_key(slug) {
            return Err(concat3("Skill '", slug, "' already exists"));
        }
        if !self.agents.contains_key(author_agent) {
            return Err(concat3("Agent '", author_agent, "' not found"));
        }
        Ok(())
    }

    /// Adds the skill `slug` cloned from `forgejo_repo` at `git_commit` and
    /// described by `meta`, as a host script of `author_agent`: enabled,
    /// shared with its author only. Refused, changing nothing, as
    /// `check_skill_registration` refuses it.
    pub fn register_skill(
        &mut self,
        slug: String,
        forgejo_repo: String,
        git_commit: String,
        meta: SkillMetadata,
        author_agent: String,
        now: String,
    ) -> (r: Result<(), String>)
        requires
            old(self).wf(),
        ensures
            final(self).wf(),
            old(self).skills@.contains_key(slug@) ==> {
                &&& r matches Err(m) && m@ == "Skill '"@ + slug@ + "' already exists"@
                &&& *final(self) == *old(self)
            },
            !old(self).skills@.contains_key(slug@) && !old(self).agents@.contains_key(author_agent@) ==> {
                &&& r matches Err(m) && m@ == "Agent '"@ + author_agent@ + "' not found"@
                &&& *final(self) == *old(self)
            },
            !old(self).skills@.contains_key(slug@) && old(self).agents@.contains_key(author_agent@) ==> {
                &&& r is Ok
                &&& final(self).same_except_skills(old(self))
                &&& final(self).skills@.contains_key(slug@)
                &&& final(self).skills@.remove(slug@) == old(self).skills@
                &&& ({
                    let s = final(self).skills@[slug@];
                    &&& s.id@ == slug@
                    &&& s.name == meta.name
                    &&& s.version == meta.version
                    &&& s.description == meta.description
                    &&& s.entrypoint == meta.entrypoint
                    &&& s.forgejo_repo@ == forgejo_repo@
                    &&& s.git_commit@ == git_commit@
                    &&& s.skill_type == SkillType::HostScript
                    &&& s.enabled
                    &&& s.owner_agent@ == author_agent@
                    &&& names_of(s.allowed_agents@) == seq![author_agent@]
                    &&& s.input_schema is None
                    &&& s.output_schema is None
                    &&& s.created_at@ == now@
                    &&& s.updated_at@ == now@
                })
            },
    {
        match self.check_skill_registration(slug.as_str(), author_agent.as_str()) {
            Err(m) => return Err(m),
            Ok(()) => {},
        }
        let mut allowed: Vec<String> = Vec::new();
        allowed.push(author_agent.clone());
        proof {
            assert(names_of(allowed@) =~= seq![author_agent@]);
        }
        let key = slug.clone();
        let skill = Skill {
            id: slug,
            name: meta.name,
            description: meta.description,
            version: meta.version,
            forgejo_repo,
            git_commit,
            skill_type: SkillType::HostScript,
            enabled: true,
            owner_agent: author_agent,
            allowed_agents: allowed,
            entrypoint: meta.entrypoint,
            input_schema: None,
            output_schema: None,
            created_at: now.clone(),
            updated_at: now,
        };
        let ghost kv = key@;
        self.skills.insert(key, skill);
        proof {
            assert(self.skills@.remove(kv) =~= old(self).skills@);
        }
        Ok(())
    }

    /// Records a pull of skill `slug`: its new commit, version and
    /// description, stamped with `now`. Fails, changing nothing, when the
    /// skill is unknown.
    pub fn update_pulled_skill(&mut self, slug: &str, git_commit: String, meta: SkillMetadata, now: String) -> (r: Result<(), Error>)
        requires
            old(self).wf(),
        ensures
            final(self).wf(),
            final(self).same_except_skills(old(self)),
            !old(self).skills@.contains_key(slug@) ==> {
                &&& r matches Err(Error::NotFound(m)) && m@ == "Skill '"@ + slug@ + "' not found"@
                &&& *final(self) == *old(self)
            },
            old(self).skills@.contains_key(slug@) ==> {
                &&& r is Ok
                &&& final(self).skills.keys() == old(self).skills.keys()
                &&& final(self).skills@ == old(self).skills@.insert(slug@, Skill {
                    git_commit: git_commit,
                    version: meta.version,
                    description: meta.description,
                    updated_at: now,
                    ..old(self).skills@[slug@]
                })
            },
    {
        match self.skills.remove_entry(slug) {
            Some((i, key, skill)) => {
                let updated = Skill {
                    git_commit,
                    version: meta.version,
                    description: meta.description,
                    updated_at: now,
                    ..skill
                };
                self.skills.insert_at(i, key, updated);
                proof {
                    assert(old(self).skills.keys().remove(i as int).insert(i as int, slug@) =~= old(self).skills.keys()) by {
                        old(self).skills.lemma_index_of(i as int);
                    }
                    assert(self.skills@ =~= old(self).skills@.insert(slug@, Skill {
                        git_commit: git_commit,
                        version: meta.version,
                        description: meta.description,
                        updated_at: now,
                        ..old(self).skills@[slug@]
                    }));
                }
                Ok(())
            },
            None => Err(Error::NotFound(concat3("Skill '", slug, "' not found"))),
        }
    }

    /// Removes the skill `id`; fails, changing nothing, when there is none.
    pub fn delete_skill(&mut self, id: &str) -> (r: Result<(), Error>)
        requires
            old(self).wf(),
        ensures
            final(self).wf(),
            final(self).same_except_skills(old(self)),
            old(self).skills@.contains_key(id@) ==> r is Ok && final(self).skills@ == old(self).skills@.remove(id@),
            !old(self).skills@.contains_key(id@) ==> {
                &&& r matches Err(Error::NotFound(m)) && m@ == "Skill '"@ + id@ + "' not found"@
                &&& *final(self) == *old(self)
            },
    {
        match self.skills.remove_entry(id) {
            Some(_) => Ok(()),
            None => Err(Error::NotFound(concat3("Skill '", id, "' not found"))),
        }
    }
}

} // verus!

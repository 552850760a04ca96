//! The tool records of the management API. JSON values are carried as JSON
//! text.

use vstd::prelude::*;
use crate::models::{copy_opt_string, State, Tool as ToolRecord};
use crate::text::concat3;
use crate::text::copy_strings;

verus! {

/// What the API shows of a tool.
pub struct Tool {
    pub slug: String,
    pub name: String,
    pub version: String,
    pub description: String,
    pub forgejo_repo: String,
    pub git_commit: String,
    pub entrypoint: String,
    pub input_schema: Option<String>,
    pub output_schema: Option<String>,
    pub author_agent: String,
    pub allowed_agents: Vec<String>,
    pub enabled: bool,
    pub created_at: String,
}

/// A request to let an agent use a tool.
pub struct AuthorizeRequest {
    pub agent_name: String,
}

/// A request to run a tool on a JSON input, on behalf of a caller.
pub struct InvokeRequest {
    pub input: String,
    pub caller: Option<String>,
}

/// A request to set an environment variable of a tool.
pub struct SetEnvRequest {
    pub key: String,
    pub value: String,
}

/// The JSON output of a tool run, or why it failed.
pub struct InvokeResponse {
    pub output: Option<String>,
    pub error: Option<String>,
}

impl Tool {
    /// What the API shows of tool `t`.
    pub fn of(t: &ToolRecord) -> (r: Tool)
        ensures
            r.slug == t.slug,
            r.name == t.name,
            r.version == t.version,
            r.description == t.description,
            r.forgejo_repo == t.forgejo_repo,
            r.git_commit == t.git_commit,
            r.entrypoint == t.entrypoint,
            r.input_schema == t.input_schema,
            r.output_schema == t.output_schema,
            r.author_agent == t.author_agent,
            r.allowed_agents@ == t.allowed_agents@,
            r.enabled == t.enabled,
            r.created_at == t.created_at,
    {
        Tool {
            slug: t.slug.clone(),
            name: t.name.clone(),
            version: t.version.clone(),
            description: t.description.clone(),
            forgejo_repo: t.forgejo_repo.clone(),
            git_commit: t.git_commit.clone(),
            entrypoint: t.entrypoint.clone(),
            input_schema: copy_opt_string(&t.input_schema),
            output_schema: copy_opt_string(&t.output_schema),
            author_agent: t.author_agent.clone(),
            allowed_agents: copy_strings(&t.allowed_agents),
            enabled: t.enabled,
            created_at: t.created_at.clone(),
        }
    }
}

/// Whether `r` is what the API shows of tool `t`.
pub open spec fn shows_tool(r: Tool, t: ToolRecord) -> bool {
    &&& r.slug == t.slug
    &&& r.name == t.name
    &&& r.version == t.version
    &&& r.description == t.description
    &&& r.forgejo_repo == t.forgejo_repo
    &&& r.git_commit == t.git_commit
    &&& r.entrypoint == t.entrypoint
    &&& r.input_schema == t.input_schema
    &&& r.output_schema == t.output_schema
    &&& r.author_agent == t.author_agent
    &&& r.allowed_agents@ == t.allowed_agents@
    &&& r.enabled == t.enabled
    &&& r.created_at == t.created_at
}

/// The tools, in the state's order, as the API shows them.
pub fn list(state: &State) -> (v: Vec<Tool>)
    requires
        state.wf(),
    ensures
        v@.len() == state.tools.count(),
        forall|i: int| 0 <= i < v@.len() ==> shows_tool(#[trigger] v@[i], state.tools@[state.tools.keys()[i]]),
{
    let n = state.tools.len();
    let mut v: Vec<Tool> = Vec::new();
    let mut i: usize = 0;
    while i < n
        invariant
            i <= n,
            n == state.tools.count(),
            state.wf(),
            v@.len() == i,
            forall|j: int| 0 <= j < i ==> shows_tool(#[trigger] v@[j], state.tools@[state.tools.keys()[j]]),
        decreases n - i,
    {
        proof {
            state.tools.lemma_index_of(i as int);
        }
        v.push(Tool::of(state.tools.value_at(i)));
        i = i + 1;
    }
    v
}

/// Tool `slug` as the API shows it, or why there is none.
pub fn get(state: &State, slug: &str) -> (r: Result<Tool, String>)
    requires
        state.wf(),
    ensures
        state.tools@.contains_key(slug@) ==> (r matches Ok(t) && shows_tool(t, state.tools@[slug@])),
        !state.tools@.contains_key(slug@) ==> (r matches Err(m) && m@ == "Tool "@ + slug@ + " not found"@),
{
    match state.tools.get(slug) {
        Some(t) => Ok(Tool::of(t)),
        None => Err(concat3("Tool ", slug, " not found")),
    }
}

} // verus!

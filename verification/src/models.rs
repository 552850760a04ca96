//! The records that the manager keeps: agents, providers, keys, users,
//! skills, tools and models, and the state that holds them.

use vstd::prelude::*;
use crate::table::Table;
use crate::text::{ascii_lower_char, ascii_upper_char, is_ascii_lowercase, is_ascii_seq, lemma_lowercase_identity, lemma_upper_then_lower, lowercase_of, str_eq, to_lowercase};

verus! {

/// The port the manager listens on unless configured otherwise.
pub const DEFAULT_PORT: u16 = 17531;

/// Errors of the manager's operations.
#[derive(Debug)]
pub enum Error {
    Config(String),
    NotFound(String),
    AgentNotFound(String),
    AgentAlreadyExists(String),
    Validation(String),
    InvalidToken,
    TaskFailed(String),
    ConnectionLost(String),
    Internal(String),
    Database(String),
}

/// A container-hosted agent.
pub struct Agent {
    pub enabled: bool,
    pub container_ip: String,
    pub host_ip: String,
    pub forgejo_username: Option<String>,
    pub internal_token: String,
    pub model_id: Option<String>,
    pub created_at: String,
    pub updated_at: String,
}

impl View for Agent {
    type V = Agent;

    open spec fn view(&self) -> Agent {
        *self
    }
}

/// A copy of an optional string.
pub fn copy_opt_string(o: &Option<String>) -> (r: Option<String>)
    ensures
        r == *o,
{
    match o {
        Some(s) => Some(s.clone()),
        None => None,
    }
}

impl Agent {
    /// A copy of this agent.
    pub fn duplicate(&self) -> (a: Agent)
        ensures
            a == *self,
    {
        Agent {
            enabled: self.enabled,
            container_ip: self.container_ip.clone(),
            host_ip: self.host_ip.clone(),
            forgejo_username: copy_opt_string(&self.forgejo_username),
            internal_token: self.internal_token.clone(),
            model_id: copy_opt_string(&self.model_id),
            created_at: self.created_at.clone(),
            updated_at: self.updated_at.clone(),
        }
    }
}

/// A Forgejo account known to the manager.
pub struct ForgejoUser {
    pub username: String,
    pub password: String,
    pub email: String,
    pub created_at: String,
}

impl View for ForgejoUser {
    type V = ForgejoUser;

    open spec fn view(&self) -> ForgejoUser {
        *self
    }
}

/// Settings that apply to every agent.
pub struct Defaults {
    pub port: u16,
    pub container_subnet_base: String,
    pub forgejo_url: String,
    pub forgejo_token: String,
}

impl Default for Defaults {
    fn default() -> (d: Self)
        ensures
            d.port == 0,
            d.container_subnet_base@ == Seq::<char>::empty(),
            d.forgejo_url@ == Seq::<char>::empty(),
            d.forgejo_token@ == Seq::<char>::empty(),
    {
        Defaults {
            port: 0,
            container_subnet_base: String::new(),
            forgejo_url: String::new(),
            forgejo_token: String::new(),
        }
    }
}

/// The port a stored configuration falls back to.
pub fn default_port() -> (p: u16)
    ensures
        p == 17531,
{
    17531
}

/// The subnet base a stored configuration falls back to.
pub fn default_container_subnet_base() -> (s: String)
    ensures
        s@ == "10.200"@,
{
    String::from_str("10.200")
}

/// The Forgejo address a stored configuration falls back to.
pub fn default_forgejo_url() -> (s: String)
    ensures
        s@ == "http://localhost:3000"@,
{
    String::from_str("http://localhost:3000")
}

/// The kinds of LLM provider.
#[derive(Debug, Clone, Copy, PartialEq, Eq, Structural)]
pub enum ProviderType {
    Openai,
    Azure,
    Anthropic,
    Deepseek,
    Moonshot,
    Zhipu,
    Custom,
}

/// The name under which each provider kind is stored.
pub open spec fn provider_type_name(t: ProviderType) -> Seq<char> {
    match t {
        ProviderType::Openai => "openai"@,
        ProviderType::Azure => "azure"@,
        ProviderType::Anthropic => "anthropic"@,
        ProviderType::Deepseek => "deepseek"@,
        ProviderType::Moonshot => "moonshot"@,
        ProviderType::Zhipu => "zhipu"@,
        ProviderType::Custom => "custom"@,
    }
}

/// The provider kind named by an already-lowercased word.
pub open spec fn provider_type_of_word(s: Seq<char>) -> Option<ProviderType> {
    if s == "openai"@ {
        Some(ProviderType::Openai)
    } else if s == "azure"@ {
        Some(ProviderType::Azure)
    } else if s == "anthropic"@ {
        Some(ProviderType::Anthropic)
    } else if s == "deepseek"@ {
        Some(ProviderType::Deepseek)
    } else if s == "moonshot"@ {
        Some(ProviderType::Moonshot)
    } else if s == "zhipu"@ {
        Some(ProviderType::Zhipu)
    } else if s == "custom"@ {
        Some(ProviderType::Custom)
    } else {
        None
    }
}

impl ProviderType {
    /// The provider kind named by `s`, whatever its case.
    pub fn from_str(s: &str) -> (r: Option<ProviderType>)
        ensures
            r == provider_type_of_word(lowercase_of(s@)),
            is_ascii_seq(s@) ==> r == provider_type_of_word(s@.map_values(|c: char| ascii_lower_char(c))),
            is_ascii_lowercase(s@) ==> r == provider_type_of_word(s@),
    {
        let lower = to_lowercase(s);
        proof {
            if is_ascii_lowercase(s@) {
                lemma_lowercase_identity(s@);
            }
        }
        ProviderType::from_lowercase(lower.as_str())
    }

    /// The provider kind named by the lowercase word `s`.
    pub fn from_lowercase(s: &str) -> (r: Option<ProviderType>)
        ensures
            r == provider_type_of_word(s@),
    {
        if str_eq(s, "openai") {
            Some(ProviderType::Openai)
        } else if str_eq(s, "azure") {
            Some(ProviderType::Azure)
        } else if str_eq(s, "anthropic") {
            Some(ProviderType::Anthropic)
        } else if str_eq(s, "deepseek") {
            Some(ProviderType::Deepseek)
        } else if str_eq(s, "moonshot") {
            Some(ProviderType::Moonshot)
        } else if str_eq(s, "zhipu") {
            Some(ProviderType::Zhipu)
        } else if str_eq(s, "custom") {
            Some(ProviderType::Custom)
        } else {
            None
        }
    }

    /// The stored name of this provider kind.
    pub fn as_str(&self) -> (s: &'static str)
        ensures
            s@ == provider_type_name(*self),
    {
        match self {
            ProviderType::Openai => "openai",
            ProviderType::Azure => "azure",
            ProviderType::Anthropic => "anthropic",
            ProviderType::Deepseek => "deepseek",
            ProviderType::Moonshot => "moonshot",
            ProviderType::Zhipu => "zhipu",
            ProviderType::Custom => "custom",
        }
    }
}

/// Every provider kind's stored name is lowercase ASCII and names that kind
/// again, so `from_str(t.as_str())` is `Some(t)`.
pub proof fn lemma_provider_type_round_trip(t: ProviderType)
    ensures
        is_ascii_lowercase(provider_type_name(t)),
        provider_type_of_word(provider_type_name(t)) == Some(t),
{
    reveal_strlit("openai");
    reveal_strlit("azure");
    reveal_strlit("anthropic");
    reveal_strlit("deepseek");
    reveal_strlit("moonshot");
    reveal_strlit("zhipu");
    reveal_strlit("custom");
    assert("openai"@[0] != "custom"@[0]);
    assert("azure"@[0] != "zhipu"@[0]);
    assert("deepseek"@[0] != "moonshot"@[0]);
    assert("openai"@.len() != "azure"@.len());
    assert("openai"@.len() != "anthropic"@.len());
    assert("openai"@.len() != "deepseek"@.len());
    assert("openai"@.len() != "moonshot"@.len());
    assert("openai"@.len() != "zhipu"@.len());
    assert("azure"@.len() != "anthropic"@.len());
    assert("azure"@.len() != "deepseek"@.len());
    assert("azure"@.len() != "moonshot"@.len());
    assert("anthropic"@.len() != "deepseek"@.len());
    assert("anthropic"@.len() != "moonshot"@.len());
    assert("anthropic"@.len() != "zhipu"@.len());
    assert("deepseek"@.len() != "zhipu"@.len());
    assert("moonshot"@.len() != "zhipu"@.len());
}


/// A provider kind's stored name written in ASCII uppercase is ASCII and,
/// lowercased again, names the same kind: `from_str` reads the uppercase of
/// `as_str` as that kind.
pub proof fn law_provider_name_any_case(t: ProviderType)
    ensures
        is_ascii_seq(provider_type_name(t).map_values(|c: char| ascii_upper_char(c))),
        provider_type_of_word(
            provider_type_name(t).map_values(|c: char| ascii_upper_char(c)).map_values(|c: char| ascii_lower_char(c)),
        ) == Some(t),
{
    lemma_provider_type_round_trip(t);
    lemma_upper_then_lower(provider_type_name(t));
}

/// The kinds of skill script.
#[derive(Debug, Clone, Copy, PartialEq, Eq, Structural)]
pub enum SkillType {
    HostScript,
    AgentScript,
}

/// The name under which each skill kind is stored.
pub open spec fn skill_type_name(t: SkillType) -> Seq<char> {
    match t {
        SkillType::HostScript => "host_script"@,
        SkillType::AgentScript => "agent_script"@,
    }
}

/// The skill kind named by an already-lowercased word.
pub open spec fn skill_type_of_word(s: Seq<char>) -> Option<SkillType> {
    if s == "hostscript"@ || s == "host_script"@ {
        Some(SkillType::HostScript)
    } else if s == "agentscript"@ || s == "agent_script"@ {
        Some(SkillType::AgentScript)
    } else {
        None
    }
}

impl SkillType {
    /// The skill kind named by `s`, whatever its case.
    pub fn from_str(s: &str) -> (r: Option<SkillType>)
        ensures
            r == skill_type_of_word(lowercase_of(s@)),
            is_ascii_seq(s@) ==> r == skill_type_of_word(s@.map_values(|c: char| ascii_lower_char(c))),
            is_ascii_lowercase(s@) ==> r == skill_type_of_word(s@),
    {
        let lower = to_lowercase(s);
        proof {
            if is_ascii_lowercase(s@) {
                lemma_lowercase_identity(s@);
            }
        }
        SkillType::from_lowercase(lower.as_str())
    }

    /// The skill kind named by the lowercase word `s`.
    pub fn from_lowercase(s: &str) -> (r: Option<SkillType>)
        ensures
            r == skill_type_of_word(s@),
    {
        if str_eq(s, "hostscript") || str_eq(s, "host_script") {
            Some(SkillType::HostScript)
        } else if str_eq(s, "agentscript") || str_eq(s, "agent_script") {
            Some(SkillType::AgentScript)
        } else {
            None
        }
    }

    /// The stored name of this skill kind.
    pub fn as_str(&self) -> (s: &'static str)
        ensures
            s@ == skill_type_name(*self),
    {
        match self {
            SkillType::HostScript => "host_script",
            SkillType::AgentScript => "agent_script",
        }
    }
}

/// Every skill kind's stored name is lowercase ASCII and names that kind
/// again, so `from_str(t.as_str())` is `Some(t)`.
pub proof fn lemma_skill_type_round_trip(t: SkillType)
    ensures
        is_ascii_lowercase(skill_type_name(t)),
        skill_type_of_word(skill_type_name(t)) == Some(t),
{
    reveal_strlit("host_script");
    reveal_strlit("agent_script");
    reveal_strlit("hostscript");
    reveal_strlit("agentscript");
    assert("host_script"@.len() != "hostscript"@.len());
    assert("agent_script"@.len() != "hostscript"@.len());
    assert("agent_script"@[0] != "host_script"@[0]);
}

/// An LLM provider.
pub struct Provider {
    pub id: String,
    pub name: String,
    pub provider_type: ProviderType,
    pub base_url: String,
    pub api_key: String,
    pub enabled: bool,
    pub created_at: String,
    pub updated_at: String,
}

impl View for Provider {
    type V = Provider;

    open spec fn view(&self) -> Provider {
        *self
    }
}

/// An API key handed to agents; only its hash is kept.
pub struct ApiKey {
    pub id: String,
    pub name: String,
    pub key_hash: String,
    pub provider_id: String,
    pub created_at: String,
    pub updated_at: String,
}

impl View for ApiKey {
    type V = ApiKey;

    open spec fn view(&self) -> ApiKey {
        *self
    }
}

/// A request to register a provider.
pub struct CreateProviderRequest {
    pub name: String,
    pub provider_type: ProviderType,
    pub base_url: String,
    pub api_key: String,
}

/// A request to issue an API key.
pub struct CreateApiKeyRequest {
    pub name: String,
    pub provider_id: String,
}

/// What a checkpoint records besides the saved state.
pub struct CheckpointMeta {
    pub id: String,
    pub agent_name: String,
    pub description: String,
    pub created_at: String,
    pub btrfs_snapshot: String,
}

/// A script an agent offers to others, cloned from a Forgejo repository
/// where it came from one. Its schemas are JSON text.
pub struct Skill {
    pub id: String,
    pub name: String,
    pub description: String,
    pub version: String,
    pub forgejo_repo: String,
    pub git_commit: String,
    pub skill_type: SkillType,
    pub enabled: bool,
    pub owner_agent: String,
    pub allowed_agents: Vec<String>,
    pub entrypoint: String,
    pub input_schema: Option<String>,
    pub output_schema: Option<String>,
    pub created_at: String,
    pub updated_at: String,
}

impl View for Skill {
    type V = Skill;

    open spec fn view(&self) -> Skill {
        *self
    }
}

/// A tool cloned from a Forgejo repository. Its schemas are JSON text.
pub struct Tool {
    pub slug: String,
    pub name: String,
    pub version: String,
    pub description: String,
    pub forgejo_repo: String,
    pub git_commit: String,
    pub entrypoint: String,
    pub input_schema: Option<String>,
    pub output_schema: Option<String>,
    pub author_agent: String,
    pub allowed_agents: Vec<String>,
    pub enabled: bool,
    pub created_at: String,
    pub updated_at: String,
}

impl View for Tool {
    type V = Tool;

    open spec fn view(&self) -> Tool {
        *self
    }
}

/// A model offered by a provider.
pub struct Model {
    pub id: String,
    pub name: String,
    pub provider_id: String,
    pub model_name: String,
    pub enabled: bool,
    pub created_at: String,
    pub updated_at: String,
}

impl View for Model {
    type V = Model;

    open spec fn view(&self) -> Model {
        *self
    }
}

/// Who made an authenticated request.
#[derive(Debug)]
pub enum CallerIdentity {
    Admin,
    Agent(String),
}

/// Everything the manager keeps.
pub struct State {
    pub version: String,
    pub defaults: Defaults,
    pub agents: Table<Agent>,
    pub providers: Table<Provider>,
    pub api_keys: Table<ApiKey>,
    pub forgejo_users: Table<ForgejoUser>,
    pub skills: Table<Skill>,
    pub tools: Table<Tool>,
    pub models: Table<Model>,
    pub admin_token: Option<String>,
}

impl State {
    /// No table holds a key twice.
    pub open spec fn wf(&self) -> bool {
        &&& self.agents.wf()
        &&& self.providers.wf()
        &&& self.api_keys.wf()
        &&& self.forgejo_users.wf()
        &&& self.skills.wf()
        &&& self.tools.wf()
        &&& self.models.wf()
    }

    /// A fresh state: version "1.0", zeroed defaults, no records.
    pub fn new() -> (s: State)
        ensures
            s.wf(),
            s.version@ == "1.0"@,
            s.defaults.port == 0,
            s.defaults.container_subnet_base@ == Seq::<char>::empty(),
            s.agents@ == Map::<Seq<char>, Agent>::empty(),
            s.providers@ == Map::<Seq<char>, Provider>::empty(),
            s.api_keys@ == Map::<Seq<char>, ApiKey>::empty(),
            s.forgejo_users@ == Map::<Seq<char>, ForgejoUser>::empty(),
            s.skills@ == Map::<Seq<char>, Skill>::empty(),
            s.tools@ == Map::<Seq<char>, Tool>::empty(),
            s.models@ == Map::<Seq<char>, Model>::empty(),
            s.agents.count() == 0,
            s.admin_token is None,
    {
        State {
            version: String::from_str("1.0"),
            defaults: Defaults::default(),
            agents: Table::new(),
            providers: Table::new(),
            api_keys: Table::new(),
            forgejo_users: Table::new(),
            skills: Table::new(),
            tools: Table::new(),
            models: Table::new(),
            admin_token: None,
        }
    }
}


/// What a tool's TOOL.md front matter describes.
pub struct ToolMetadata {
    pub name: String,
    pub version: String,
    pub description: String,
    pub entrypoint: String,
    pub input_schema: Option<String>,
    pub output_schema: Option<String>,
}

/// What a skill's SKILL.md front matter describes.
pub struct SkillMetadata {
    pub slug: String,
    pub name: String,
    pub version: String,
    pub description: String,
    pub entrypoint: String,
}

} // verus!

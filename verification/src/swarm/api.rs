//! The records of the swarm's API that the management API does not share.

use vstd::prelude::*;
use crate::api::llm::provider_name_in;
use crate::models::{skill_type_name, ApiKey, Skill, State};

verus! {

/// What the API shows of an API key: the key itself only right after it was
/// made.
pub struct ApiKeyInfo {
    pub id: String,
    pub name: String,
    pub provider_id: String,
    pub provider_name: String,
    pub key: Option<String>,
    pub created_at: String,
}

/// A request to clone a checkpoint into a new agent.
pub struct CloneCheckpointRequest {
    pub new_name: String,
}

/// A request to set a secret of a skill.
pub struct SetSecretRequest {
    pub key: String,
    pub value: String,
}

/// A request to store a file of a skill.
pub struct UploadFileRequest {
    pub filename: String,
    pub content: String,
}

/// What the API shows of a skill; its type is written as its name.
pub struct SkillInfo {
    pub id: String,
    pub name: String,
    pub description: String,
    pub skill_type: String,
    pub enabled: bool,
    pub owner_agent: String,
    pub allowed_agents: Vec<String>,
    pub entrypoint: String,
    pub created_at: String,
    pub updated_at: String,
}

impl ApiKeyInfo {
    /// What the API shows of key `k`, with the name of its provider in
    /// `state` (the empty text where it is gone), and `key` where the key was
    /// just made.
    pub fn of(k: &ApiKey, state: &State, key: Option<String>) -> (i: ApiKeyInfo)
        requires
            state.wf(),
        ensures
            i.id == k.id,
            i.name == k.name,
            i.provider_id == k.provider_id,
            i.provider_name@ == provider_name_in(*state, k.provider_id@),
            i.key == key,
            i.created_at == k.created_at,
    {
        let provider_name = match state.providers.get(k.provider_id.as_str()) {
            Some(p) => p.name.clone(),
            None => String::new(),
        };
        ApiKeyInfo {
            id: k.id.clone(),
            name: k.name.clone(),
            provider_id: k.provider_id.clone(),
            provider_name,
            key,
            created_at: k.created_at.clone(),
        }
    }
}

impl SkillInfo {
    /// What the API shows of `skill`.
    pub fn from_skill(skill: Skill) -> (i: SkillInfo)
        ensures
            i.id == skill.id,
            i.name == skill.name,
            i.description == skill.description,
            i.skill_type@ == skill_type_name(skill.skill_type),
            i.enabled == skill.enabled,
            i.owner_agent == skill.owner_agent,
            i.allowed_agents@ == skill.allowed_agents@,
            i.entrypoint == skill.entrypoint,
            i.created_at == skill.created_at,
            i.updated_at == skill.updated_at,
    {
        let t = skill.skill_type.as_str().to_owned();
        SkillInfo {
            id: skill.id,
            name: skill.name,
            description: skill.description,
            skill_type: t,
            enabled: skill.enabled,
            owner_agent: skill.owner_agent,
            allowed_agents: skill.allowed_agents,
            entrypoint: skill.entrypoint,
            created_at: skill.created_at,
            updated_at: skill.updated_at,
        }
    }
}

} // verus!

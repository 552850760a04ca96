//! The managers of the agent swarm: checkpoints on btrfs, the NixOS
//! container flake, tools and skills, Forgejo, basic authentication, the LLM
//! proxy and the API's records.

pub mod checkpoint;
pub mod agent_manager;
pub mod tool_manager;
pub mod skill_manager;
pub mod forgejo;
pub mod auth;
pub mod proxy;
pub mod api;

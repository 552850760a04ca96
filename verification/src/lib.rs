//! Cerebrate: the decision logic of an agent cluster manager, verified with Verus.

pub mod text;
pub mod table;
pub mod models;
pub mod store;
pub mod access;
pub mod accounts;
pub mod cli;
pub mod cli_laws;
pub mod paths;
pub mod btrfs;
pub mod state;
pub mod ids;
pub mod swarm;
pub mod connections;
pub mod api;
pub mod auth;
pub mod agent_manager;
pub mod checkpoint;
pub mod report;
pub mod settings;

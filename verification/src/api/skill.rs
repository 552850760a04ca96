//! The skill records of the management API.

use vstd::prelude::*;

verus! {

/// What the API shows of a skill kept in a Forgejo repository.
pub struct Skill {
    pub slug: String,
    pub name: String,
    pub version: String,
    pub description: String,
    pub forgejo_repo: String,
    pub git_commit: String,
    pub author_agent: String,
    pub created_at: String,
}

/// A request to clone a skill from a Forgejo repository.
pub struct CloneRequest {
    pub author_agent: String,
    pub forgejo_repo: String,
}

} // verus!

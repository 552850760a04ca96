//! The HTTP API's records: what requests carry and what responses hold, and
//! how the responses are made from the state.

pub mod types;
pub mod agent;
pub mod auth;
pub mod checkpoint;
pub mod llm;
pub mod skill;
pub mod tool;

use vstd::prelude::*;

verus! {

/// The answer to a health check.
pub struct HealthResponse {
    pub status: &'static str,
    pub version: &'static str,
    pub name: &'static str,
}

/// The health of the service named `cerebrate` at `version`: always `ok`.
pub fn health(version: &'static str) -> (h: HealthResponse)
    ensures
        h.status@ == "ok"@,
        h.version@ == version@,
        h.name@ == "cerebrate"@,
{
    HealthResponse { status: "ok", version, name: "cerebrate" }
}

/// The envelope of every answer: the data on success, the error message
/// otherwise.
pub struct ApiResponse<T> {
    pub success: bool,
    pub data: Option<T>,
    pub error: Option<String>,
}

impl<T> ApiResponse<T> {
    /// A successful answer carrying `data`.
    pub fn ok(data: T) -> (r: Self)
        ensures
            r.success,
            r.data == Some(data),
            r.error is None,
    {
        ApiResponse { success: true, data: Some(data), error: None }
    }

    /// A failed answer with message `msg`.
    pub fn err(msg: &str) -> (r: Self)
        ensures
            !r.success,
            r.data is None,
            r.error matches Some(e) && e@ == msg@,
    {
        ApiResponse { success: false, data: None, error: Some(msg.to_owned()) }
    }
}

} // verus!

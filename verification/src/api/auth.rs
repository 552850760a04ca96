//! The login records of the management API.

use vstd::prelude::*;

verus! {

/// A request to log in with a token.
pub struct LoginRequest {
    pub token: String,
}

/// A session token and how many seconds it lasts.
pub struct LoginResponse {
    pub jwt: String,
    pub expires_in: i64,
}

/// Whether a session token is valid, whose it is and with which role.
pub struct VerifyResponse {
    pub valid: bool,
    pub subject: String,
    pub role: String,
}

} // verus!

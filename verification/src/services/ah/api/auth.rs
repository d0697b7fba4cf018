//! The anonymous login of the Albert Heijn API.

use vstd::prelude::*;

verus! {

/// Sent to obtain an anonymous token (`clientId` in JSON).
pub struct AuthenticationRequest {
    pub client_id: String,
}

/// The anonymous token.
pub struct AuthenticationResponse {
    pub access_token: String,
    pub refresh_token: String,
    pub expires_in: i64,
}

} // verus!

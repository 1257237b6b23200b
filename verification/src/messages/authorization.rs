//! Authorization messages.

use vstd::prelude::*;

verus! {

/// The kind of token that an authorization was made with.
#[derive(Debug, Clone, Copy, PartialEq, Eq, Hash, Structural)]
pub enum AuthorizationTokenType {
    ISO14443,
    ISO15693,
    KeyCode,
    Local,
    NoAuthorization,
    MacAddress,
    EMaid,
    Central,
}

/// The outcome of an authorization.
#[derive(Debug, Clone, Copy, PartialEq, Eq, Hash, Structural)]
pub enum AuthorizationStatus {
    Accepted,
    Rejected,
    Deauthorized,
}

/// Published when an authorization has been resolved.
#[derive(Debug, Clone, PartialEq)]
pub struct AuthorizationUpdate {
    pub evse_id: String,
    pub id_token: Option<String>,
    pub token_type: AuthorizationTokenType,
    pub status: AuthorizationStatus,
}

/// Asks the external relay to resolve an authorization.
#[derive(Debug, Clone, PartialEq)]
pub struct AuthorizationRequest {
    pub evse_id: Option<String>,
    pub id_token: Option<String>,
    pub token_type: AuthorizationTokenType,
}

/// The relay's answer to an [`AuthorizationRequest`].
#[derive(Debug, Clone, PartialEq)]
pub struct AuthorizationResponse {
    pub status: AuthorizationStatus,
}

} // verus!

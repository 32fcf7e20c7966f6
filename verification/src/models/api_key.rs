//! API key management models and response types.
//!
//! API keys are used for authenticating with the Kalshi API.
//! These endpoints allow management of API keys programmatically.

use vstd::prelude::*;

verus! {

/// An API key.
#[derive(Debug, Clone)]
pub struct ApiKey {
    /// The API key identifier.
    pub api_key: Option<String>,
    /// The name/label for the API key.
    pub name: Option<String>,
    /// When the API key was created (RFC3339 timestamp).
    pub created_at: Option<String>,
    /// When the API key was last used (RFC3339 timestamp).
    pub last_used_at: Option<String>,
    /// The RSA public key (PEM format).
    pub public_key: Option<String>,
}

/// Response from GET /api_keys.
#[derive(Debug, Clone)]
pub struct ApiKeysResponse {
    /// The list of API keys.
    pub api_keys: Vec<ApiKey>,
}

/// Request body for POST /api_keys.
///
/// Creates a new API key using a user-provided RSA public key.
/// Available for Premier/Market Maker tier users.
#[derive(Debug, Clone)]
pub struct CreateApiKeyRequest {
    /// The name/label for the API key.
    pub name: String,
    /// The RSA public key in PEM format.
    pub public_key: String,
}

impl CreateApiKeyRequest {

    /// Creates a new API key request from a label and an RSA public key in
    /// PEM format.
    pub fn new(name: &str, public_key: &str) -> (r: Self)
        ensures
            r.name@ == name@,
            r.public_key@ == public_key@,
    {
        CreateApiKeyRequest { name: String::from_str(name), public_key: String::from_str(public_key) }
    }
}

/// Response from POST /api_keys.
#[derive(Debug, Clone)]
pub struct CreateApiKeyResponse {
    /// The created API key.
    pub api_key: ApiKey,
}

/// Request body for POST /api_keys/generate.
///
/// Generates a new API key with platform-generated RSA keypair.
/// The private key is only returned once and cannot be retrieved later.
#[derive(Debug, Clone)]
pub struct GenerateApiKeyRequest {
    /// The name/label for the API key.
    pub name: String,
}

impl GenerateApiKeyRequest {

    /// Creates a new generate API key request with the given label.
    pub fn new(name: &str) -> (r: Self)
        ensures
            r.name@ == name@,
    {
        GenerateApiKeyRequest { name: String::from_str(name) }
    }
}

/// Response from POST /api_keys/generate.
///
/// Contains both the API key and the private key.
/// **Important**: The private key is only returned once and cannot be retrieved later.
#[derive(Debug, Clone)]
pub struct GenerateApiKeyResponse {
    /// The generated API key.
    pub api_key: ApiKey,
    /// The RSA private key in PEM format.
    ///
    /// **Important**: Store this securely. It cannot be retrieved again.
    pub private_key: String,
}

/// Response from DELETE /api_keys/{api_key}.
#[derive(Debug, Clone)]
pub struct DeleteApiKeyResponse {
    /// The deleted API key identifier.
    pub api_key: Option<String>,
    /// Whether the deletion was successful.
    pub deleted: Option<bool>,
}


} // verus!

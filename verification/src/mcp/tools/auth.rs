use vstd::prelude::*;

use crate::json::JsonValue;

verus! {

/// The arguments of the `jwt_verify_token` tool (verify a JWT token).
#[derive(Debug)]
pub struct JwtVerifyTokenRequest {
    pub token: String,
}

/// The arguments of the `jwt_decode_token` tool (decode a JWT token without verification).
#[derive(Debug)]
pub struct JwtDecodeTokenRequest {
    pub token: String,
}

/// The arguments of the `oauth2_get_authorization_url` tool (get OAuth2 authorization URL).
#[derive(Debug)]
pub struct OAuth2GetAuthorizationUrlRequest {
    pub scopes: Option<Vec<String>>,
    pub state: Option<String>,
}

/// The arguments of the `oauth2_exchange_code` tool (exchange authorization code for tokens).
#[derive(Debug)]
pub struct OAuth2ExchangeCodeRequest {
    pub code: String,
}

/// The arguments of the `oauth2_refresh_token` tool (refresh an OAuth2 access token).
#[derive(Debug)]
pub struct OAuth2RefreshTokenRequest {
    pub refresh_token: String,
}

/// The arguments of the `oauth2_validate_token` tool (validate an OAuth2 access token).
#[derive(Debug)]
pub struct OAuth2ValidateTokenRequest {
    pub access_token: String,
}

/// The arguments of the `jwt_create_token` tool (create a new JWT token).
#[derive(Debug)]
pub struct JwtCreateTokenRequest {
    pub subject: String,
    pub claims: Option<JsonValue>,
    pub expires_in_seconds: Option<u64>,
}

} // verus!

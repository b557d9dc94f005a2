//! Shared models between the core and integration APIs.

pub mod intg;
pub mod settings;

use vstd::prelude::*;

verus! {

/// An OAuth2 token as issued by an authorization server.
#[derive(Debug, Clone)]
pub struct Oauth2Token {
    /// The access token issued by the authorization server.
    pub access_token: String,
    /// The type of the token issued, e.g. `Bearer`.
    pub token_type: String,
    /// The time period (in seconds) for which the `access_token` is valid.
    pub expires_in: Option<u64>,
    /// Injected by the core when the `access_token` expires, based on
    /// `expires_in` and the time of the authorization request; carried in
    /// its wire form.
    pub expires_at: Option<String>,
    /// The refresh token, which can be used to obtain new access tokens
    /// using the same authorization grant.
    pub refresh_token: Option<String>,
    /// A space-separated list of scopes which have been granted for this
    /// `access_token`.
    pub scope: Option<String>,
}

} // verus!

//! Builder for token-request bodies, configured once with the
//! application's provider credentials.

use vstd::prelude::*;

verus! {

/// Body of a token request, in the generic shape the builder produces.
#[derive(Debug)]
pub struct AuthRequestBody {
    pub client_id: String,
    pub client_secret: String,
    pub grant_type: String,
    pub redirect_uri: String,
    pub code: Option<String>,
    pub refresh_token: Option<String>,
}

/// The application's provider credentials, from which request bodies are
/// built.
#[derive(Debug)]
pub struct AuthRequestBuilder {
    pub client_id: String,
    pub client_secret: String,
    pub redirect_uri: String,
}

impl AuthRequestBuilder {
    pub fn new(client_id: String, client_secret: String, redirect_uri: String) -> (r: Self)
        ensures
            r.client_id == client_id,
            r.client_secret == client_secret,
            r.redirect_uri == redirect_uri,
    {
        Self { client_id, client_secret, redirect_uri }
    }

    /// The body that exchanges an authorization code for tokens.
    pub fn request_body(&self, code: String) -> (r: AuthRequestBody)
        ensures
            r.client_id@ == self.client_id@,
            r.client_secret@ == self.client_secret@,
            r.redirect_uri@ == self.redirect_uri@,
            r.grant_type@ == "authorization_code"@,
            r.code matches Some(c) && c@ == code@,
            r.refresh_token is None,
    {
        AuthRequestBody {
            client_id: self.client_id.clone(),
            client_secret: self.client_secret.clone(),
            redirect_uri: self.redirect_uri.clone(),
            grant_type: String::from_str("authorization_code"),
            code: Some(code),
            refresh_token: None,
        }
    }

    /// The body that rotates a refresh token.
    pub fn refresh_body(&self, refresh_token: String) -> (r: AuthRequestBody)
        ensures
            r.client_id@ == self.client_id@,
            r.client_secret@ == self.client_secret@,
            r.redirect_uri@ == self.redirect_uri@,
            r.grant_type@ == "refresh_token"@,
            r.code is None,
            r.refresh_token matches Some(t) && t@ == refresh_token@,
    {
        AuthRequestBody {
            client_id: self.client_id.clone(),
            client_secret: self.client_secret.clone(),
            redirect_uri: self.redirect_uri.clone(),
            grant_type: String::from_str("refresh_token"),
            code: None,
            refresh_token: Some(refresh_token),
        }
    }
}

/// The provider's answer to a token request.
#[derive(Debug)]
pub struct AuthResponseBody {
    pub token_type: String,
    pub expires_in: u32,
    pub access_token: String,
    pub refresh_token: String,
}

} // verus!

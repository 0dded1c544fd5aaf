//! The provider's authentication operations: the shape of a token request,
//! the shape of the provider's answer, and the check that a freshly issued
//! access token actually carries the public-read scope.
//!
//! Without the public scope an access token cannot be used to request
//! public information, so a login that yields such a token is routed to a
//! distinct failure destination rather than treated as a success.

use vstd::prelude::*;
use crate::osu_api::OsuApiError;

verus! {

/// Body of a token request to the provider's token endpoint.
#[derive(Debug)]
pub struct AuthRequest {
    pub client_id: String,
    pub client_secret: String,
    pub grant_type: String,
    pub redirect_uri: String,
    /// Without the public scope, the tokens issued cannot be used to
    /// request public information.
    pub scope: String,
    pub code: Option<String>,
    pub refresh_token: Option<String>,
}

impl AuthRequest {
    /// The request that exchanges an authorization code for tokens.
    pub fn access(code: String, client_id: &str, client_secret: &str, redirect_uri: &str) -> (r:
        AuthRequest)
        ensures
            r.client_id@ == client_id@,
            r.client_secret@ == client_secret@,
            r.redirect_uri@ == redirect_uri@,
            r.grant_type@ == "authorization_code"@,
            r.scope@ == "public, identify"@,
            r.code matches Some(c) && c@ == code@,
            r.refresh_token is None,
    {
        AuthRequest {
            client_id: client_id.to_owned(),
            client_secret: client_secret.to_owned(),
            redirect_uri: redirect_uri.to_owned(),
            grant_type: String::from_str("authorization_code"),
            scope: String::from_str("public, identify"),
            code: Some(code),
            refresh_token: None,
        }
    }

    /// The request that rotates a refresh token into fresh tokens.
    pub fn refresh(refresh_token: String, client_id: &str, client_secret: &str, redirect_uri: &str)
        -> (r: AuthRequest)
        ensures
            r.client_id@ == client_id@,
            r.client_secret@ == client_secret@,
            r.redirect_uri@ == redirect_uri@,
            r.grant_type@ == "refresh_token"@,
            r.scope@ == "public, identify"@,
            r.code is None,
            r.refresh_token matches Some(t) && t@ == refresh_token@,
    {
        AuthRequest {
            client_id: client_id.to_owned(),
            client_secret: client_secret.to_owned(),
            redirect_uri: redirect_uri.to_owned(),
            grant_type: String::from_str("refresh_token"),
            scope: String::from_str("public, identify"),
            code: None,
            refresh_token: Some(refresh_token),
        }
    }
}

/// The provider's answer to a token request.
#[derive(Debug)]
pub struct AuthResponseBody {
    /// Bearer token.
    pub token_type: String,
    /// Token validity duration in seconds.
    pub expires_in: u32,
    /// An access token that authorizes requests.
    pub access_token: String,
    /// Refresh token, for getting a new access token later without a new
    /// authorization code.
    pub refresh_token: String,
}

/// The scopes carried in an access token's claims, or nothing when the
/// token does not decode to claims with a list of scope strings. A
/// function of the token text alone.
pub uninterp spec fn token_scopes(token: Seq<char>) -> Option<Seq<Seq<char>>>;

/// Relies on jwt's Token::parse_unverified: decodes the token's header
/// and claims from the token text alone, without verifying the signature.
/// The "scopes" claim is read as a list of strings; any other shape of
/// claims counts as undecodable.
#[verifier::external_body]
fn parse_token_scopes(access_token: &str) -> (r: Option<Vec<String>>)
    ensures
        r.deep_view() == token_scopes(access_token@),
{
    let parsed: jwt::Token<jwt::Header, serde_json::Value, jwt::Unverified> =
        jwt::Token::parse_unverified(access_token).ok()?;
    let items = parsed.claims().get("scopes")?.as_array()?;
    let mut scopes: Vec<String> = Vec::new();
    for item in items {
        scopes.push(item.as_str()?.to_string());
    }
    Some(scopes)
}

/// Whether a decoded scope list grants the public-read scope.
pub fn scopes_contain_public(scopes: &Vec<String>) -> (r: bool)
    ensures
        r == scopes.deep_view().contains("public"@),
{
    let pattern = String::from_str("public");
    let mut i: usize = 0;
    while i < scopes.len()
        invariant
            0 <= i <= scopes@.len(),
            pattern@ == "public"@,
            forall|j: int| 0 <= j < i ==> scopes.deep_view()[j] != "public"@,
        decreases scopes@.len() - i,
    {
        if scopes[i] == pattern {
            proof {
                assert(scopes.deep_view()[i as int] == "public"@);
            }
            return true;
        }
        i = i + 1;
    }
    proof {
        assert(forall|j: int| 0 <= j < scopes.deep_view().len() ==> scopes.deep_view()[j]
            != "public"@);
    }
    false
}

/// Checks that an access token the provider just issued carries the
/// public-read scope: the token must decode, and its scope list must name
/// the public scope; each failure is classified distinctly.
pub fn check_scope(access_token: &str) -> (r: Result<(), OsuApiError>)
    ensures
        (match token_scopes(access_token@) {
            Some(scopes) => {
                if scopes.contains("public"@) {
                    r is Ok
                } else {
                    r matches Err(OsuApiError::PublicScopeError)
                }
            },
            None => r matches Err(OsuApiError::JwtParseError(_)),
        }),
{
    match parse_token_scopes(access_token) {
        None => Err(OsuApiError::JwtParseError(String::from_str("unable to parse access token"))),
        Some(scopes) => {
            if scopes_contain_public(&scopes) {
                Ok(())
            } else {
                Err(OsuApiError::PublicScopeError)
            }
        },
    }
}

} // verus!

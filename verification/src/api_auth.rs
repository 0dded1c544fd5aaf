//! The login flow: from the provider's callback to an authenticated
//! session.
//!
//! One login attempt moves through fixed stages: the callback parameters
//! are validated to an authorization code; the code is exchanged with the
//! provider for tokens, and the access token's scopes decide whether the
//! attempt proceeds or is routed to the failure destination; the
//! provider's self-identification of the principal is fetched; then the
//! session is issued and the local user materialized. The two provider
//! calls are transport work: each decision step here takes the call's
//! outcome as a value and says what must happen next, so a driver
//! alternates one call with one step. A failure at any stage aborts the
//! whole attempt, and no partially issued session is ever readable: the
//! session mapping, the provider tokens and the cookie are written in one
//! step, after which the token resolves — or nothing was written at all.

use vstd::prelude::*;
use crate::kv::{
    set_osu_tokens, set_session_token, spec_session_user, KvStore, SessionEntry,
    ACCESS_TOKEN_TIMEOUT, SESSION_TOKEN_TIMEOUT,
};
use crate::osu_api::auth::{check_scope, token_scopes, AuthResponseBody};
use crate::osu_api::OsuApiError;
use crate::result::AppError;
use crate::session::{CookieJar, SessionError};
use crate::session_token::{
    format_session_token, lemma_session_token_text_round_trip, spec_format_u128,
    spec_parse_session_token,
};
use crate::state::TokenSource;
use crate::user::{init_user, PgStore, User, UserError};
use crate::MAX_INSTANT;

verus! {

/// Query parameters the provider sends to the callback endpoint.
#[derive(Debug)]
pub struct OsuAuthResponseParams {
    pub code: Option<String>,
    pub error: Option<String>,
}

/// Where the client is sent when a login attempt ends.
#[derive(Clone, Copy, Debug, PartialEq, Eq, Structural)]
pub enum LoginRedirect {
    /// The application's home destination.
    Home,
    /// The distinct destination for a login the provider refused scope
    /// for.
    AuthFailed,
}

/// What a login attempt needs next.
#[derive(Debug)]
pub enum LoginStep {
    /// Exchange this authorization code for tokens with the provider.
    NeedExchange { code: String },
    /// Fetch the provider's self-identification of the principal, using
    /// the access token in these tokens.
    NeedPrincipal { tokens: AuthResponseBody },
    /// The attempt ended; redirect the client.
    Finished { redirect: LoginRedirect },
}

/// Starts a login attempt from the callback parameters: an error reported
/// by the provider or a missing code aborts the attempt; otherwise the
/// code is ready to be exchanged.
pub fn login_start(params: OsuAuthResponseParams) -> (r: Result<LoginStep, AppError>)
    ensures
        (match params.error {
            Some(err) => r == Err::<LoginStep, AppError>(
                AppError::SessionError(SessionError::OsuAuthError(err)),
            ),
            None => (match params.code {
                Some(code) => (r matches Ok(LoginStep::NeedExchange { code: c }) && c == code),
                None => (r matches Err(AppError::SessionError(SessionError::OsuAuthError(m)))
                    && m@ == "No code provided"@),
            }),
        }),
{
    if let Some(err) = params.error {
        return Err(AppError::SessionError(SessionError::OsuAuthError(err)));
    }
    match params.code {
        Some(code) => Ok(LoginStep::NeedExchange { code }),
        None => Err(
            AppError::SessionError(SessionError::OsuAuthError(String::from_str(
                "No code provided",
            ))),
        ),
    }
}

/// Takes the provider's answer to the code exchange. Tokens whose access
/// token carries the public-read scope proceed to the principal fetch; a
/// missing scope ends the attempt with the failure redirect rather than an
/// error; an undecodable token or any other provider failure aborts.
pub fn login_on_exchange(response: Result<AuthResponseBody, OsuApiError>) -> (r: Result<
    LoginStep,
    AppError,
>)
    ensures
        (match response {
            Ok(tokens) => (match token_scopes(tokens.access_token@) {
                Some(scopes) => {
                    if scopes.contains("public"@) {
                        r matches Ok(LoginStep::NeedPrincipal { tokens: t }) && t == tokens
                    } else {
                        r == Ok::<LoginStep, AppError>(
                            LoginStep::Finished { redirect: LoginRedirect::AuthFailed },
                        )
                    }
                },
                None => (r matches Err(AppError::OsuApiError(OsuApiError::JwtParseError(_)))),
            }),
            Err(OsuApiError::PublicScopeError) => r == Ok::<LoginStep, AppError>(
                LoginStep::Finished { redirect: LoginRedirect::AuthFailed },
            ),
            Err(e) => r == Err::<LoginStep, AppError>(AppError::OsuApiError(e)),
        }),
{
    match response {
        Ok(tokens) => match check_scope(tokens.access_token.as_str()) {
            Ok(()) => Ok(LoginStep::NeedPrincipal { tokens }),
            Err(OsuApiError::PublicScopeError) => Ok(
                LoginStep::Finished { redirect: LoginRedirect::AuthFailed },
            ),
            Err(e) => Err(AppError::OsuApiError(e)),
        },
        Err(OsuApiError::PublicScopeError) => Ok(
            LoginStep::Finished { redirect: LoginRedirect::AuthFailed },
        ),
        Err(e) => Err(AppError::OsuApiError(e)),
    }
}

/// Issues the session for an authenticated principal: draws a fresh
/// token, stores both the session mapping and the provider's tokens —
/// together, so no session is readable without its tokens — and hands the
/// token to the client as the cookie's decimal text. The token is returned;
/// by construction its cookie text parses back to it, so the session it
/// names resolves from the moment this returns.
pub fn issue_session(
    user_id: i64,
    tokens: &AuthResponseBody,
    rng: &mut TokenSource,
    kv: &mut KvStore,
    cookies: &mut CookieJar,
    now: i64,
) -> (t: u128)
    requires
        0 <= now <= MAX_INSTANT,
    ensures
        final(kv).sessions_map() == old(kv).sessions_map().insert(
            t,
            (SessionEntry { user_id, expires_at: (now + SESSION_TOKEN_TIMEOUT) as i64 }),
        ),
        final(kv).access_map() == old(kv).access_map().insert(
            user_id,
            (tokens.access_token@, (now + ACCESS_TOKEN_TIMEOUT) as i64),
        ),
        final(kv).refresh_map() == old(kv).refresh_map().insert(user_id, tokens.refresh_token@),
        final(kv).locks_map() == old(kv).locks_map(),
        (final(cookies).session matches Some(text) && text@ == spec_format_u128(t as int)),
        spec_parse_session_token(spec_format_u128(t as int)) == Some(t),
        spec_session_user(final(kv).sessions_map(), t, now) == Some(user_id),
{
    let t = rng.generate_session_token();
    let _stored_session = set_session_token(user_id, t, kv, now);
    let _stored_tokens = set_osu_tokens(
        user_id,
        tokens.access_token.as_str(),
        tokens.refresh_token.as_str(),
        kv,
        now,
    );
    cookies.session = Some(format_session_token(t));
    proof {
        lemma_session_token_text_round_trip(t);
    }
    t
}

/// Idempotently makes sure a local user exists for the authenticated
/// principal: a missing row is created — identity, profile and a zeroed
/// snapshot together — and a row that exists, or appears concurrently, is
/// left as it is; either way the caller sees success.
pub fn ensure_local_user(
    principal: &crate::osu_api::user::User,
    pg: &mut PgStore,
    now: i64,
) -> (r: Result<(), AppError>)
    requires
        old(pg).wf(),
        0 <= now <= MAX_INSTANT,
    ensures
        final(pg).wf(),
        r is Ok,
        old(pg).users_map().contains_key(principal.id) ==> {
            &&& final(pg).users_map() == old(pg).users_map()
            &&& final(pg).profiles_map() == old(pg).profiles_map()
            &&& final(pg).osu_data_map() == old(pg).osu_data_map()
        },
        !old(pg).users_map().contains_key(principal.id) ==> {
            &&& final(pg).users_map() == old(pg).users_map().insert(
                principal.id,
                (User {
                    id: principal.id,
                    user_name: principal.username,
                    profile_picture: principal.avatar_url,
                    modified_at: now,
                }),
            )
            &&& final(pg).profiles_map() == old(pg).profiles_map().insert(
                principal.id,
                (crate::user::UserProfile {
                    user_id: principal.id,
                    bio: None,
                    featured_maps: None,
                    modified_at: now,
                }),
            )
            &&& final(pg).osu_data_map() == old(pg).osu_data_map().insert(
                principal.id,
                (crate::user::UserOsuData {
                    user_id: principal.id,
                    ranked_count: 0,
                    loved_count: 0,
                    nominated_count: 0,
                    graveyard_count: 0,
                    guest_count: 0,
                    modified_at: now,
                }),
            )
        },
{
    if pg.users.contains_key(&principal.id) {
        return Ok(());
    }
    match init_user(User::from_osu(principal), pg, now) {
        Ok(_) => Ok(()),
        // A racing creator put the row there first; the row exists, which
        // is all this step needs.
        Err(UserError::UserAlreadyExists(_)) => Ok(()),
        Err(e) => Err(AppError::UserError(e)),
    }
}

/// Finishes a login attempt once the principal is known: issues the
/// session — the cookie now carries the new token's text and the token
/// resolves to the principal — makes sure the local user exists, and sends
/// the client home.
pub fn login_on_principal(
    principal: &crate::osu_api::user::User,
    tokens: &AuthResponseBody,
    rng: &mut TokenSource,
    kv: &mut KvStore,
    pg: &mut PgStore,
    cookies: &mut CookieJar,
    now: i64,
) -> (r: Result<LoginStep, AppError>)
    requires
        old(pg).wf(),
        0 <= now <= MAX_INSTANT,
    ensures
        final(pg).wf(),
        r == Ok::<LoginStep, AppError>(LoginStep::Finished { redirect: LoginRedirect::Home }),
        (final(cookies).session matches Some(text) && spec_parse_session_token(text@) matches Some(
            t,
        ) && spec_session_user(final(kv).sessions_map(), t, now) == Some(principal.id)),
        final(kv).access_map() == old(kv).access_map().insert(
            principal.id,
            (tokens.access_token@, (now + ACCESS_TOKEN_TIMEOUT) as i64),
        ),
        final(kv).refresh_map() == old(kv).refresh_map().insert(
            principal.id,
            tokens.refresh_token@,
        ),
        final(kv).locks_map() == old(kv).locks_map(),
        final(pg).users_map().contains_key(principal.id),
        old(pg).users_map().contains_key(principal.id) ==> {
            &&& final(pg).users_map() == old(pg).users_map()
            &&& final(pg).profiles_map() == old(pg).profiles_map()
            &&& final(pg).osu_data_map() == old(pg).osu_data_map()
        },
        !old(pg).users_map().contains_key(principal.id) ==> {
            &&& final(pg).users_map()[principal.id] == (User {
                id: principal.id,
                user_name: principal.username,
                profile_picture: principal.avatar_url,
                modified_at: now,
            })
            &&& final(pg).users_map().dom() == old(pg).users_map().dom().insert(principal.id)
        },
{
    let _token = issue_session(principal.id, tokens, rng, kv, cookies, now);
    let _ensured = ensure_local_user(principal, pg, now);
    Ok(LoginStep::Finished { redirect: LoginRedirect::Home })
}

/// What the login page does for a request: a request that already carries
/// a live session goes straight home; anything else is sent to the
/// provider's authorization page.
#[derive(Clone, Copy, Debug, PartialEq, Eq, Structural)]
pub enum LoginDecision {
    /// The session is live; redirect to the application's home.
    AlreadyAuthenticated,
    /// Send the client to the provider's authorization page.
    BeginAuthorization,
}

/// Decides the login page's redirect: home for a request whose cookie
/// holds a live session token, the provider's authorization page for
/// every other request.
pub fn login(cookies: &CookieJar, kv: &KvStore, now: i64) -> (r: LoginDecision)
    ensures
        (match cookies.session {
            Some(text) => (match spec_parse_session_token(text@) {
                Some(token) => r == (if spec_session_user(kv.sessions_map(), token, now) is Some {
                    LoginDecision::AlreadyAuthenticated
                } else {
                    LoginDecision::BeginAuthorization
                }),
                None => r == LoginDecision::BeginAuthorization,
            }),
            None => r == LoginDecision::BeginAuthorization,
        }),
{
    match crate::session::get_session_cookie(cookies) {
        Ok(token) => match crate::kv::get_user_id(token, kv, now) {
            Ok(_) => LoginDecision::AlreadyAuthenticated,
            Err(_) => LoginDecision::BeginAuthorization,
        },
        Err(_) => LoginDecision::BeginAuthorization,
    }
}

} // verus!

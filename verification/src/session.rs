//! Session resolution: turning a request's cookie into a trusted local
//! user id.
//!
//! An inbound request carries the session cookie; its value is the
//! decimal text of a session token. A request whose cookie is absent or
//! malformed is a client fault and distinct from a request whose token
//! simply has no live backing record — the two produce different
//! user-facing messages.

use vstd::prelude::*;
use crate::core_error::{ErrorType, LogLevel};
use crate::kv::{get_user_id, spec_session_user, AuthError, KvStore};
use crate::result::AppError;
use crate::session_token::{parse_session_token, spec_parse_session_token};

verus! {

/// Name of the session cookie.
pub const COOKIE_NAME: &'static str = "mi-session-token";

/// Failures of session handling.
#[derive(Debug)]
pub enum SessionError {
    /// The request carries no parseable session cookie: a malformed
    /// request, not recoverable by retrying.
    CookieError,
    /// The token is well shaped but has no live backing record; the user
    /// must authenticate again.
    SessionExpired,
    /// The provider refused the authorization attempt; carries what it
    /// reported.
    OsuAuthError(String),
}

impl SessionError {
    pub open spec fn spec_user_message(self) -> Seq<char> {
        match self {
            SessionError::CookieError => "Unable to get session cookie"@,
            SessionError::SessionExpired => "User's session is expired"@,
            SessionError::OsuAuthError(_) => "Unable to authorize with osu!"@,
        }
    }

    pub open spec fn spec_error_type(self) -> ErrorType {
        ErrorType::AuthorizatonError
    }

    pub open spec fn spec_log_level(self) -> LogLevel {
        match self {
            SessionError::OsuAuthError(_) => LogLevel::Error,
            _ => LogLevel::Warn,
        }
    }

    pub fn user_message(&self) -> (r: String)
        ensures
            r@ == self.spec_user_message(),
    {
        match self {
            SessionError::CookieError => String::from_str("Unable to get session cookie"),
            SessionError::SessionExpired => String::from_str("User's session is expired"),
            SessionError::OsuAuthError(_) => String::from_str("Unable to authorize with osu!"),
        }
    }

    pub fn error_type(&self) -> (r: ErrorType)
        ensures
            r == self.spec_error_type(),
    {
        ErrorType::AuthorizatonError
    }

    pub fn log_level(&self) -> (r: LogLevel)
        ensures
            r == self.spec_log_level(),
    {
        match self {
            SessionError::CookieError => LogLevel::Warn,
            SessionError::SessionExpired => LogLevel::Warn,
            SessionError::OsuAuthError(_) => LogLevel::Error,
        }
    }
}

/// The cookies of one request, as the handlers see them: the value of the
/// session cookie, if the request carries one.
pub struct CookieJar {
    pub session: Option<String>,
}

/// A user id that was resolved from a live session: proof of
/// authentication for the handler that receives it.
pub struct AuthUserId(pub i64);

/// Reads the session token out of a request's cookies. A missing cookie
/// and one whose text does not parse as a token are the same client
/// fault.
pub fn get_session_cookie(cookies: &CookieJar) -> (r: Result<u128, AppError>)
    ensures
        (match cookies.session {
            Some(text) => (match spec_parse_session_token(text@) {
                Some(token) => r == Ok::<u128, AppError>(token),
                None => r == Err::<u128, AppError>(
                    AppError::SessionError(SessionError::CookieError),
                ),
            }),
            None => r == Err::<u128, AppError>(AppError::SessionError(SessionError::CookieError)),
        }),
{
    match &cookies.session {
        Some(text) => match parse_session_token(text.as_str()) {
            Some(token) => Ok(token),
            None => Err(AppError::SessionError(SessionError::CookieError)),
        },
        None => Err(AppError::SessionError(SessionError::CookieError)),
    }
}

/// A bearer credential, as presented in a request header; absent when the
/// request carries none.
pub struct BearerAuth(pub Option<String>);

/// Reads an optional session token from a bearer credential: a missing
/// credential is no fault, an unparseable one is.
pub fn get_bearer_auth(bearer_auth: BearerAuth) -> (r: Result<Option<u128>, AppError>)
    ensures
        (match bearer_auth.0 {
            Some(text) => (match spec_parse_session_token(text@) {
                Some(token) => r == Ok::<Option<u128>, AppError>(Some(token)),
                None => r == Err::<Option<u128>, AppError>(
                    AppError::SessionError(SessionError::CookieError),
                ),
            }),
            None => r == Ok::<Option<u128>, AppError>(None),
        }),
{
    match bearer_auth.0 {
        Some(text) => match parse_session_token(text.as_str()) {
            Some(token) => Ok(Some(token)),
            None => Err(AppError::SessionError(SessionError::CookieError)),
        },
        None => Ok(None),
    }
}

/// Authenticates a request: reads the session cookie and resolves it
/// against the key-value store. A missing or malformed cookie is a client
/// fault; a token without a live record means the session expired and the
/// user must authenticate again; a live token yields the user's id.
pub fn auth_user(cookies: &CookieJar, kv: &KvStore, now: i64) -> (r: Result<i64, AppError>)
    ensures
        (match cookies.session {
            None => r == Err::<i64, AppError>(AppError::SessionError(SessionError::CookieError)),
            Some(text) => (match spec_parse_session_token(text@) {
                None => r == Err::<i64, AppError>(
                    AppError::SessionError(SessionError::CookieError),
                ),
                Some(token) => (match spec_session_user(kv.sessions_map(), token, now) {
                    Some(user_id) => r == Ok::<i64, AppError>(user_id),
                    None => r == Err::<i64, AppError>(
                        AppError::SessionError(SessionError::SessionExpired),
                    ),
                }),
            }),
        }),
{
    let token = match get_session_cookie(cookies) {
        Ok(token) => token,
        Err(e) => { return Err(e) },
    };
    match get_user_id(token, kv, now) {
        Ok(user_id) => Ok(user_id),
        Err(AuthError::ValueNotFound { .. }) => Err(AppError::session_expired()),
        Err(e) => Err(AppError::AuthError(e)),
    }
}

} // verus!

//! The one error type handlers return, and its mapping to the boundary:
//! a closed union of every subsystem's failures, taken to an HTTP status,
//! a short user-safe message, a log severity and a flag saying whether the
//! error is durably recorded — by exhaustive matching, never downcasting.

use vstd::prelude::*;
use crate::core_error::{ErrorType, LogLevel};
use crate::influence::InfluenceError;
use crate::kv::AuthError;
use crate::leaderboard::LeaderboardError;
use crate::osu_api::OsuApiError;
use crate::session::SessionError;
use crate::user::UserError;
use crate::user_lock::LockError;

verus! {

/// Everything a handler can fail with.
#[derive(Debug)]
pub enum AppError {
    SessionError(SessionError),
    LeaderboardError(LeaderboardError),
    AuthError(AuthError),
    OsuApiError(OsuApiError),
    UserError(UserError),
    InfluenceError(InfluenceError),
    LockError(LockError),
}

pub type AppResult<T> = Result<T, AppError>;

/// The JSON payload a successful handler answers with; the boundary
/// renders the carried value.
#[derive(Debug)]
pub struct Json<T>(pub T);

impl AppError {
    /// The failure of a request whose session has no live record.
    pub fn session_expired() -> (r: AppError)
        ensures
            r == AppError::SessionError(SessionError::SessionExpired),
    {
        AppError::SessionError(SessionError::SessionExpired)
    }

    pub open spec fn spec_user_message(self) -> Seq<char> {
        match self {
            AppError::SessionError(e) => e.spec_user_message(),
            AppError::LeaderboardError(e) => e.spec_user_message(),
            AppError::AuthError(e) => e.spec_user_message(),
            AppError::OsuApiError(e) => e.spec_user_message(),
            AppError::UserError(e) => e.spec_user_message(),
            AppError::InfluenceError(e) => e.spec_user_message(),
            AppError::LockError(e) => e.spec_user_message(),
        }
    }

    pub open spec fn spec_error_type(self) -> ErrorType {
        match self {
            AppError::SessionError(e) => e.spec_error_type(),
            AppError::LeaderboardError(e) => e.spec_error_type(),
            AppError::AuthError(e) => e.spec_error_type(),
            AppError::OsuApiError(e) => e.spec_error_type(),
            AppError::UserError(e) => e.spec_error_type(),
            AppError::InfluenceError(e) => e.spec_error_type(),
            AppError::LockError(e) => e.spec_error_type(),
        }
    }

    pub open spec fn spec_log_level(self) -> LogLevel {
        match self {
            AppError::SessionError(e) => e.spec_log_level(),
            AppError::LeaderboardError(e) => e.spec_log_level(),
            AppError::AuthError(e) => e.spec_log_level(),
            AppError::OsuApiError(e) => e.spec_log_level(),
            AppError::UserError(e) => e.spec_log_level(),
            AppError::InfluenceError(e) => e.spec_log_level(),
            AppError::LockError(e) => e.spec_log_level(),
        }
    }

    /// Short, non-technical message shown to the user; never echoes a
    /// collaborator's response body.
    pub fn user_message(&self) -> (r: String)
        ensures
            r@ == self.spec_user_message(),
    {
        match self {
            AppError::SessionError(e) => e.user_message(),
            AppError::LeaderboardError(e) => e.user_message(),
            AppError::AuthError(e) => e.user_message(),
            AppError::OsuApiError(e) => e.user_message(),
            AppError::UserError(e) => e.user_message(),
            AppError::InfluenceError(e) => e.user_message(),
            AppError::LockError(e) => e.user_message(),
        }
    }

    /// Machine-readable category of the error.
    pub fn error_type(&self) -> (r: ErrorType)
        ensures
            r == self.spec_error_type(),
    {
        match self {
            AppError::SessionError(e) => e.error_type(),
            AppError::LeaderboardError(e) => e.error_type(),
            AppError::AuthError(e) => e.error_type(),
            AppError::OsuApiError(e) => e.error_type(),
            AppError::UserError(e) => e.error_type(),
            AppError::InfluenceError(e) => e.error_type(),
            AppError::LockError(e) => e.error_type(),
        }
    }

    /// Severity with which the error is logged.
    pub fn log_level(&self) -> (r: LogLevel)
        ensures
            r == self.spec_log_level(),
    {
        match self {
            AppError::SessionError(e) => e.log_level(),
            AppError::LeaderboardError(e) => e.log_level(),
            AppError::AuthError(e) => e.log_level(),
            AppError::OsuApiError(e) => e.log_level(),
            AppError::UserError(e) => e.log_level(),
            AppError::InfluenceError(e) => e.log_level(),
            AppError::LockError(e) => e.log_level(),
        }
    }

    /// Whether this error is durably recorded for later inspection. No
    /// failure in this union is; only a bare deserialization failure,
    /// which never reaches handlers as such, is recorded.
    pub fn should_save(&self) -> (r: bool)
        ensures
            !r,
    {
        false
    }

    /// What the boundary sends for this error: the HTTP status code and
    /// the user-safe message.
    pub fn as_response(&self) -> (r: (u16, String))
        ensures
            r.0 == self.spec_error_type().spec_http_status(),
            r.1@ == self.spec_user_message(),
    {
        (self.error_type().http_status(), self.user_message())
    }
}

} // verus!

//! Typed surface of the external identity provider.
//!
//! These modules mirror what the application reads from the provider: the
//! authenticated principal and public user profiles, beatmap data attached
//! to profiles, the token-exchange request and response shapes, and the
//! classified failures of provider calls. The network transport itself is
//! a collaborator; the logic here works on the decoded values.

pub mod api_error;
pub mod auth;
pub mod authentication;
pub mod beatmap;
pub mod search;
pub mod user;

use vstd::prelude::*;
use crate::core_error::{DeserializeError, ErrorType, LogLevel, INTERNAL_SERVER_ERROR_MESSAGE};

verus! {

/// A provider call that did not yield the expected value, classified.
#[derive(Debug)]
pub enum OsuApiError {
    /// The provider answered with an error status; carries the response
    /// body and the status code.
    HTTPError { body: String, error: u16 },
    /// The HTTP client itself failed; carries its message.
    InternalError(String),
    /// The provider's response body could not be decoded.
    DeserializeError(DeserializeError),
    /// A beatmap listing was requested for a beatmap kind the provider
    /// does not serve.
    InvalidBeatmapType,
    /// The provider's access token could not be read as a token at all.
    JwtParseError(String),
    /// The access token lacks the public-read scope; the login attempt is
    /// routed to a distinct failure destination.
    PublicScopeError,
}

impl OsuApiError {
    pub open spec fn spec_user_message(self) -> Seq<char> {
        match self {
            OsuApiError::PublicScopeError => "Missing public scope in access token."@,
            _ => INTERNAL_SERVER_ERROR_MESSAGE@,
        }
    }

    pub open spec fn spec_log_level(self) -> LogLevel {
        match self {
            OsuApiError::HTTPError { .. } => LogLevel::Warn,
            OsuApiError::InternalError(_) => LogLevel::Error,
            OsuApiError::DeserializeError(_) => LogLevel::Error,
            OsuApiError::InvalidBeatmapType => LogLevel::Warn,
            OsuApiError::JwtParseError(_) => LogLevel::Error,
            OsuApiError::PublicScopeError => LogLevel::Info,
        }
    }

    pub fn user_message(&self) -> (r: String)
        ensures
            r@ == self.spec_user_message(),
    {
        match self {
            OsuApiError::HTTPError { .. } => String::from_str(INTERNAL_SERVER_ERROR_MESSAGE),
            OsuApiError::InternalError(_) => String::from_str(INTERNAL_SERVER_ERROR_MESSAGE),
            OsuApiError::DeserializeError(err) => err.user_message(),
            OsuApiError::InvalidBeatmapType => String::from_str(INTERNAL_SERVER_ERROR_MESSAGE),
            OsuApiError::JwtParseError(_) => String::from_str(INTERNAL_SERVER_ERROR_MESSAGE),
            OsuApiError::PublicScopeError => String::from_str(
                "Missing public scope in access token.",
            ),
        }
    }

    pub open spec fn spec_error_type(self) -> ErrorType {
        match self {
            OsuApiError::HTTPError { .. } => ErrorType::OsuApiError,
            OsuApiError::InternalError(_) => ErrorType::HttpClientError,
            OsuApiError::DeserializeError(_) => ErrorType::DeserializeError,
            OsuApiError::InvalidBeatmapType => ErrorType::BadRequestData,
            OsuApiError::JwtParseError(_) => ErrorType::OsuApiError,
            OsuApiError::PublicScopeError => ErrorType::OsuApiScopeError,
        }
    }

    pub fn error_type(&self) -> (r: ErrorType)
        ensures
            r == self.spec_error_type(),
    {
        match self {
            OsuApiError::HTTPError { .. } => ErrorType::OsuApiError,
            OsuApiError::InternalError(_) => ErrorType::HttpClientError,
            OsuApiError::DeserializeError(err) => err.error_type(),
            OsuApiError::InvalidBeatmapType => ErrorType::BadRequestData,
            OsuApiError::JwtParseError(_) => ErrorType::OsuApiError,
            OsuApiError::PublicScopeError => ErrorType::OsuApiScopeError,
        }
    }

    pub fn log_level(&self) -> (r: LogLevel)
        ensures
            r == self.spec_log_level(),
    {
        match self {
            OsuApiError::HTTPError { .. } => LogLevel::Warn,
            OsuApiError::InternalError(_) => LogLevel::Error,
            OsuApiError::DeserializeError(_) => LogLevel::Error,
            OsuApiError::InvalidBeatmapType => LogLevel::Warn,
            OsuApiError::JwtParseError(_) => LogLevel::Error,
            OsuApiError::PublicScopeError => LogLevel::Info,
        }
    }
}

} // verus!

//! The leaderboard row shape and its failure classification. The ranking
//! query itself runs in the relational store, a collaborator.

use vstd::prelude::*;
use crate::core_error::{ErrorType, LogLevel};

verus! {

/// One leaderboard entry: a user and how many influences they are behind.
#[derive(Clone, Debug)]
pub struct LeaderboardUser {
    pub id: i64,
    pub user_name: String,
    pub profile_picture: String,
    pub ranked_map_count: i32,
    pub influence_count: Option<i64>,
}

/// Failures of the leaderboard query.
#[derive(Debug)]
pub enum LeaderboardError {
    /// The store itself reported an error; carries its message.
    DatabaseError(String),
}

impl LeaderboardError {
    pub open spec fn spec_user_message(self) -> Seq<char> {
        "Unable to get leaderboard"@
    }

    pub open spec fn spec_error_type(self) -> ErrorType {
        ErrorType::DatabaseError
    }

    pub open spec fn spec_log_level(self) -> LogLevel {
        LogLevel::Error
    }

    pub fn user_message(&self) -> (r: String)
        ensures
            r@ == "Unable to get leaderboard"@,
    {
        String::from_str("Unable to get leaderboard")
    }

    pub fn error_type(&self) -> (r: ErrorType)
        ensures
            r == ErrorType::DatabaseError,
    {
        ErrorType::DatabaseError
    }

    pub fn log_level(&self) -> (r: LogLevel)
        ensures
            r == LogLevel::Error,
    {
        LogLevel::Error
    }
}

} // verus!

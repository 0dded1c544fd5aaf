//! Influence relationships between users: the row shape and the
//! classified failures of writes against the influence table. The
//! endpoints around these are plain create-read-update-delete calls; the
//! store itself is a collaborator.

use vstd::prelude::*;
use crate::core_error::{ErrorType, LogLevel, INTERNAL_DB_ERROR_MESSAGE};
use crate::text::str_eq;
use crate::{PG_FOREIGN_KEY_VIOLATION, PG_UNIQUE_KEY_VIOLATION};

verus! {

/// One declared influence: a user stating that another user influenced
/// them, with a strength level and an optional note.
#[derive(Clone, Debug)]
pub struct Influence {
    /// Id of the influencer user.
    pub from_id: i64,
    /// Id of the influenced user.
    pub to_id: i64,
    /// Level of influence.
    pub influence_level: i32,
    /// Extra notes about the influence.
    pub info: Option<String>,
    /// Creation instant; stamped by the store on insert.
    pub created_at: i64,
    /// Last modification instant; stamped by the store.
    pub modified_at: i64,
}

impl Influence {
    pub fn new(from_id: i64, to_id: i64, influence_level: i32, info: Option<String>) -> (r: Self)
        ensures
            r.from_id == from_id,
            r.to_id == to_id,
            r.influence_level == influence_level,
            r.info == info,
            r.created_at == 0,
            r.modified_at == 0,
    {
        Self { from_id, to_id, influence_level, info, created_at: 0, modified_at: 0 }
    }
}

/// Classifies the store's report of a refused influence insert, as the
/// insert path must: a unique-key violation means the influence already
/// exists, a foreign-key violation means one of the two users has no row,
/// and anything else is an internal store failure carrying its message.
pub fn classify_influence_insert_error(
    pg_db_error_code: &str,
    from_id: i64,
    to_id: i64,
    message: String,
) -> (r: InfluenceError)
    ensures
        pg_db_error_code@ == PG_UNIQUE_KEY_VIOLATION@ ==> r
            == InfluenceError::InfluenceAlreadyExists(from_id, to_id),
        pg_db_error_code@ == PG_FOREIGN_KEY_VIOLATION@ ==> r == InfluenceError::UserDoesNotExist(
            from_id,
            to_id,
        ),
        pg_db_error_code@ != PG_UNIQUE_KEY_VIOLATION@ && pg_db_error_code@
            != PG_FOREIGN_KEY_VIOLATION@ ==> r == InfluenceError::DatabaseError(message),
{
    proof {
        reveal_strlit("23505");
        reveal_strlit("23503");
        assert(PG_UNIQUE_KEY_VIOLATION@ == "23505"@);
        assert(PG_FOREIGN_KEY_VIOLATION@ == "23503"@);
        assert("23505"@[4] != "23503"@[4]);
        assert(PG_UNIQUE_KEY_VIOLATION@ != PG_FOREIGN_KEY_VIOLATION@);
    }
    if str_eq(pg_db_error_code, PG_UNIQUE_KEY_VIOLATION) {
        InfluenceError::InfluenceAlreadyExists(from_id, to_id)
    } else if str_eq(pg_db_error_code, PG_FOREIGN_KEY_VIOLATION) {
        InfluenceError::UserDoesNotExist(from_id, to_id)
    } else {
        InfluenceError::DatabaseError(message)
    }
}

/// Failures of writes against the influence table.
#[derive(Debug)]
pub enum InfluenceError {
    /// No influence row exists for this influencer and influenced pair.
    InfluenceNotFoundWithPrimaryKey(i64, i64),
    /// One of the two users has no row in the user table.
    UserDoesNotExist(i64, i64),
    /// An influence between the two users already exists.
    InfluenceAlreadyExists(i64, i64),
    /// The store itself reported an error; carries its message.
    DatabaseError(String),
}

impl InfluenceError {
    pub open spec fn spec_user_message(self) -> Seq<char> {
        match self {
            InfluenceError::InfluenceNotFoundWithPrimaryKey(..) => "No influence between these users exists."@,
            InfluenceError::UserDoesNotExist(..) => "User does not exist on the user table."@,
            InfluenceError::InfluenceAlreadyExists(..) => "Influence between these users already exists."@,
            InfluenceError::DatabaseError(_) => INTERNAL_DB_ERROR_MESSAGE@,
        }
    }

    pub open spec fn spec_error_type(self) -> ErrorType {
        match self {
            InfluenceError::InfluenceNotFoundWithPrimaryKey(..) => ErrorType::DataNotFound,
            InfluenceError::UserDoesNotExist(..) => ErrorType::DataNotFound,
            InfluenceError::InfluenceAlreadyExists(..) => ErrorType::DuplicateEntry,
            InfluenceError::DatabaseError(_) => ErrorType::DatabaseError,
        }
    }

    pub open spec fn spec_log_level(self) -> LogLevel {
        match self {
            InfluenceError::DatabaseError(_) => LogLevel::Error,
            _ => LogLevel::Warn,
        }
    }

    pub fn user_message(&self) -> (r: String)
        ensures
            r@ == self.spec_user_message(),
    {
        match self {
            InfluenceError::InfluenceNotFoundWithPrimaryKey(..) => String::from_str(
                "No influence between these users exists.",
            ),
            InfluenceError::UserDoesNotExist(..) => String::from_str(
                "User does not exist on the user table.",
            ),
            InfluenceError::InfluenceAlreadyExists(..) => String::from_str(
                "Influence between these users already exists.",
            ),
            InfluenceError::DatabaseError(_) => String::from_str(INTERNAL_DB_ERROR_MESSAGE),
        }
    }

    pub fn error_type(&self) -> (r: ErrorType)
        ensures
            r == self.spec_error_type(),
    {
        match self {
            InfluenceError::InfluenceNotFoundWithPrimaryKey(..) => ErrorType::DataNotFound,
            InfluenceError::UserDoesNotExist(..) => ErrorType::DataNotFound,
            InfluenceError::InfluenceAlreadyExists(..) => ErrorType::DuplicateEntry,
            InfluenceError::DatabaseError(_) => ErrorType::DatabaseError,
        }
    }

    pub fn log_level(&self) -> (r: LogLevel)
        ensures
            r == self.spec_log_level(),
    {
        match self {
            InfluenceError::InfluenceNotFoundWithPrimaryKey(..) => LogLevel::Warn,
            InfluenceError::UserDoesNotExist(..) => LogLevel::Warn,
            InfluenceError::InfluenceAlreadyExists(..) => LogLevel::Warn,
            InfluenceError::DatabaseError(_) => LogLevel::Error,
        }
    }
}

} // verus!

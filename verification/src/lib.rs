//! Backend core for a social web application in which users, identified
//! through a third-party OAuth provider, declare influence relationships,
//! browse a leaderboard and keep a profile synced from the provider.
//!
//! The crate covers the session / authentication subsystem and the
//! reconciliation of locally stored user records with the provider:
//! the authorization-code exchange, session-token issuance and validation,
//! the per-user refresh lock, and lazy materialization of missing users.
//! Network and database transports are collaborators: the logic here is
//! written against explicit models of the key-value store and the
//! relational store, and against the provider's responses handed in as
//! values.

pub mod api_auth;
pub mod api_influence;
pub mod api_user;
pub mod core_error;
pub mod db_error;
pub mod influence;
pub mod kv;
pub mod leaderboard;
pub mod osu_api;
pub mod result;
pub mod session;
pub mod session_token;
pub mod state;
pub mod text;
pub mod user;
pub mod user_lock;

use vstd::prelude::*;

verus! {

/// Upper bound assumed of every clock reading handed to the library, far
/// enough in the future that adding any time-to-live to an instant below
/// it stays well within the instant type.
pub const MAX_INSTANT: i64 = 100_000_000_000;

/// Unique-key violation code reported by the relational store.
pub const PG_UNIQUE_KEY_VIOLATION: &'static str = "23505";

/// Foreign-key violation code reported by the relational store.
pub const PG_FOREIGN_KEY_VIOLATION: &'static str = "23503";

} // verus!

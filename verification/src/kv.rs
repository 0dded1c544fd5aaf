//! Model of the key-value session store.
//!
//! The store holds three kinds of ephemeral data, each under its own key
//! space: session tokens mapping to local user ids, the provider's access
//! and refresh tokens per local user id, and the per-user refresh locks.
//! Entries with a time-to-live carry their absolute expiry instant; a read
//! at instant `now` treats an entry at or past its expiry as absent, which
//! is how the backing store's server-side expiry is observed by clients.

use vstd::prelude::*;
use vstd::hash_map::HashMapWithView;
use crate::session_token::{format_i64, format_session_token, spec_format_i64, spec_format_u128};
use crate::MAX_INSTANT;

verus! {

broadcast use vstd::std_specs::hash::group_hash_axioms;

/// Seconds a session token lives: 23 hours 50 minutes, just under a
/// common 24-hour cap, forcing re-authentication daily.
pub const SESSION_TOKEN_TIMEOUT: i64 = 85800;

/// Seconds the provider's access token is kept: 12 hours.
pub const ACCESS_TOKEN_TIMEOUT: i64 = 43200;

/// A session entry: the local user the token stands for, and when the
/// token expires.
#[derive(Clone, Copy, Debug, PartialEq, Eq, Structural)]
pub struct SessionEntry {
    pub user_id: i64,
    pub expires_at: i64,
}

/// A stored provider access token and its expiry instant.
pub struct TokenEntry {
    pub token: String,
    pub expires_at: i64,
}

/// The key-value store: session tokens, provider tokens and refresh locks.
pub struct KvStore {
    pub sessions: HashMapWithView<u128, SessionEntry>,
    pub access_tokens: HashMapWithView<i64, TokenEntry>,
    pub refresh_tokens: HashMapWithView<i64, String>,
    pub locks: HashMapWithView<i64, i64>,
}

impl KvStore {
    pub open spec fn sessions_map(self) -> Map<u128, SessionEntry> {
        self.sessions@
    }

    /// Access tokens as text values with their expiry instants.
    pub open spec fn access_map(self) -> Map<i64, (Seq<char>, i64)> {
        Map::new(
            |u: i64| self.access_tokens@.contains_key(u),
            |u: i64| (self.access_tokens@[u].token@, self.access_tokens@[u].expires_at),
        )
    }

    pub open spec fn refresh_map(self) -> Map<i64, Seq<char>> {
        Map::new(
            |u: i64| self.refresh_tokens@.contains_key(u),
            |u: i64| self.refresh_tokens@[u]@,
        )
    }

    /// Refresh locks as their expiry instants.
    pub open spec fn locks_map(self) -> Map<i64, i64> {
        self.locks@
    }

    pub fn new() -> (r: KvStore)
        ensures
            r.sessions_map() == Map::<u128, SessionEntry>::empty(),
            r.access_map() == Map::<i64, (Seq<char>, i64)>::empty(),
            r.refresh_map() == Map::<i64, Seq<char>>::empty(),
            r.locks_map() == Map::<i64, i64>::empty(),
    {
        let r = KvStore {
            sessions: HashMapWithView::new(),
            access_tokens: HashMapWithView::new(),
            refresh_tokens: HashMapWithView::new(),
            locks: HashMapWithView::new(),
        };
        proof {
            assert(r.access_map() =~= Map::<i64, (Seq<char>, i64)>::empty());
            assert(r.refresh_map() =~= Map::<i64, Seq<char>>::empty());
        }
        r
    }
}

/// The user a session token resolves to at instant `now`: the stored user
/// while the token is live, nothing once it expired or was never stored.
pub open spec fn spec_session_user(m: Map<u128, SessionEntry>, session_token: u128, now: i64) -> Option<
    i64,
> {
    if m.contains_key(session_token) && now < m[session_token].expires_at {
        Some(m[session_token].user_id)
    } else {
        None
    }
}

/// The access token stored for a user while it is live.
pub open spec fn spec_access_token(m: Map<i64, (Seq<char>, i64)>, user_id: i64, now: i64) -> Option<
    Seq<char>,
> {
    if m.contains_key(user_id) && now < m[user_id].1 {
        Some(m[user_id].0)
    } else {
        None
    }
}

/// The refresh token stored for a user; refresh tokens carry no
/// time-to-live and persist until rotated.
pub open spec fn spec_refresh_token(m: Map<i64, Seq<char>>, user_id: i64) -> Option<Seq<char>> {
    if m.contains_key(user_id) {
        Some(m[user_id])
    } else {
        None
    }
}

/// Failures of the key-value store and of reads against it.
#[derive(Debug)]
pub enum AuthError {
    /// Getting a connection from the pool took too long.
    ConnectionTimedOut,
    /// The store itself reported an error; carries its message.
    RedisError(String),
    /// The store returned an empty response for the given key.
    ValueNotFound { value: String, expected: &'static str },
}

impl AuthError {
    pub open spec fn spec_user_message(self) -> Seq<char> {
        match self {
            AuthError::ValueNotFound { .. } => "Couldn't authorize the user"@,
            _ => crate::core_error::INTERNAL_DB_ERROR_MESSAGE@,
        }
    }

    pub open spec fn spec_error_type(self) -> crate::core_error::ErrorType {
        match self {
            AuthError::ValueNotFound { .. } => crate::core_error::ErrorType::AuthorizatonError,
            _ => crate::core_error::ErrorType::DatabaseError,
        }
    }

    pub open spec fn spec_log_level(self) -> crate::core_error::LogLevel {
        match self {
            AuthError::RedisError(_) => crate::core_error::LogLevel::Error,
            _ => crate::core_error::LogLevel::Warn,
        }
    }

    pub fn user_message(&self) -> (r: String)
        ensures
            r@ == self.spec_user_message(),
    {
        match self {
            AuthError::ValueNotFound { .. } => String::from_str("Couldn't authorize the user"),
            AuthError::ConnectionTimedOut => String::from_str(
                crate::core_error::INTERNAL_DB_ERROR_MESSAGE,
            ),
            AuthError::RedisError(_) => String::from_str(
                crate::core_error::INTERNAL_DB_ERROR_MESSAGE,
            ),
        }
    }

    pub fn error_type(&self) -> (r: crate::core_error::ErrorType)
        ensures
            r == self.spec_error_type(),
    {
        match self {
            AuthError::ValueNotFound { .. } => crate::core_error::ErrorType::AuthorizatonError,
            AuthError::ConnectionTimedOut => crate::core_error::ErrorType::DatabaseError,
            AuthError::RedisError(_) => crate::core_error::ErrorType::DatabaseError,
        }
    }

    pub fn log_level(&self) -> (r: crate::core_error::LogLevel)
        ensures
            r == self.spec_log_level(),
    {
        match self {
            AuthError::ValueNotFound { .. } => crate::core_error::LogLevel::Warn,
            AuthError::ConnectionTimedOut => crate::core_error::LogLevel::Warn,
            AuthError::RedisError(_) => crate::core_error::LogLevel::Error,
        }
    }
}

/// Looks a session token up. Yields the user id the token maps to while it
/// is live; a token that is absent or expired is reported as a missing
/// value, which callers surface as an expired session.
pub fn get_user_id(session_token: u128, db: &KvStore, now: i64) -> (r: Result<i64, AuthError>)
    ensures
        (match spec_session_user(db.sessions_map(), session_token, now) {
            Some(u) => r == Ok::<i64, AuthError>(u),
            None => (r matches Err(e) && e matches AuthError::ValueNotFound { value, expected }
                && value@ == spec_format_u128(session_token as int) && expected@ == "user_id"@),
        }),
{
    match db.sessions.get(&session_token) {
        Some(entry) if now < entry.expires_at => Ok(entry.user_id),
        _ => Err(
            AuthError::ValueNotFound {
                value: format_session_token(session_token),
                expected: "user_id",
            },
        ),
    }
}

/// Reads the provider access token stored for a user, while it is live.
pub fn get_access_token(user_id: i64, db: &KvStore, now: i64) -> (r: Result<String, AuthError>)
    ensures
        (match spec_access_token(db.access_map(), user_id, now) {
            Some(t) => (r matches Ok(s) && s@ == t),
            None => (r matches Err(e) && e matches AuthError::ValueNotFound { value, expected }
                && value@ == spec_format_i64(user_id as int) && expected@ == "access_token"@),
        }),
{
    match db.access_tokens.get(&user_id) {
        Some(entry) if now < entry.expires_at => Ok(entry.token.clone()),
        _ => Err(
            AuthError::ValueNotFound { value: format_i64(user_id), expected: "access_token" },
        ),
    }
}

/// Reads the provider refresh token stored for a user.
pub fn get_refresh_token(user_id: i64, db: &KvStore) -> (r: Result<String, AuthError>)
    ensures
        (match spec_refresh_token(db.refresh_map(), user_id) {
            Some(t) => (r matches Ok(s) && s@ == t),
            None => (r matches Err(e) && e matches AuthError::ValueNotFound { value, expected }
                && value@ == spec_format_i64(user_id as int) && expected@ == "refresh_token"@),
        }),
{
    match db.refresh_tokens.get(&user_id) {
        Some(token) => Ok(token.clone()),
        None => Err(
            AuthError::ValueNotFound { value: format_i64(user_id), expected: "refresh_token" },
        ),
    }
}

/// Stores `session_token -> user_id` with the session time-to-live.
pub fn set_session_token(user_id: i64, session_token: u128, db: &mut KvStore, now: i64) -> (r:
    Result<(), AuthError>)
    requires
        0 <= now <= MAX_INSTANT,
    ensures
        r is Ok,
        final(db).sessions_map() == old(db).sessions_map().insert(
            session_token,
            (SessionEntry { user_id, expires_at: (now + SESSION_TOKEN_TIMEOUT) as i64 }),
        ),
        final(db).access_map() == old(db).access_map(),
        final(db).refresh_map() == old(db).refresh_map(),
        final(db).locks_map() == old(db).locks_map(),
{
    let entry = SessionEntry { user_id, expires_at: now + SESSION_TOKEN_TIMEOUT };
    db.sessions.insert(session_token, entry);
    proof {
        assert(db.access_map() =~= old(db).access_map());
        assert(db.refresh_map() =~= old(db).refresh_map());
    }
    Ok(())
}

/// Stores the provider's access and refresh tokens for a user: the access
/// token with its time-to-live, the refresh token without one.
pub fn set_osu_tokens(
    user_id: i64,
    access_token: &str,
    refresh_token: &str,
    db: &mut KvStore,
    now: i64,
) -> (r: Result<(), AuthError>)
    requires
        0 <= now <= MAX_INSTANT,
    ensures
        r is Ok,
        final(db).access_map() == old(db).access_map().insert(
            user_id,
            (access_token@, (now + ACCESS_TOKEN_TIMEOUT) as i64),
        ),
        final(db).refresh_map() == old(db).refresh_map().insert(user_id, refresh_token@),
        final(db).sessions_map() == old(db).sessions_map(),
        final(db).locks_map() == old(db).locks_map(),
{
    let entry = TokenEntry { token: access_token.to_owned(), expires_at: now + ACCESS_TOKEN_TIMEOUT };
    db.access_tokens.insert(user_id, entry);
    db.refresh_tokens.insert(user_id, refresh_token.to_owned());
    proof {
        assert(db.access_map() =~= old(db).access_map().insert(
            user_id,
            (access_token@, (now + ACCESS_TOKEN_TIMEOUT) as i64),
        ));
        assert(db.refresh_map() =~= old(db).refresh_map().insert(user_id, refresh_token@));
    }
    Ok(())
}

/// Issuing a session and resolving it round-trips: immediately after the
/// token is stored for a user it resolves to that user, and from the
/// moment the time-to-live has elapsed it no longer resolves at all.
pub proof fn lemma_session_round_trip(
    m: Map<u128, SessionEntry>,
    user_id: i64,
    session_token: u128,
    now: i64,
    later: i64,
)
    requires
        0 <= now <= MAX_INSTANT,
    ensures
        spec_session_user(
            m.insert(
                session_token,
                (SessionEntry { user_id, expires_at: (now + SESSION_TOKEN_TIMEOUT) as i64 }),
            ),
            session_token,
            now,
        ) == Some(user_id),
        later >= now + SESSION_TOKEN_TIMEOUT ==> spec_session_user(
            m.insert(
                session_token,
                (SessionEntry { user_id, expires_at: (now + SESSION_TOKEN_TIMEOUT) as i64 }),
            ),
            session_token,
            later,
        ) is None,
{
}

} // verus!

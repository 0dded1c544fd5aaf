//! The per-user refresh lock.
//!
//! A short-lived flag in the key-value store guarantees at most one
//! concurrent external-data refresh per user id. It is advisory and
//! best-effort: a request that finds the lock held skips refreshing and
//! serves the stored data instead of waiting, and a holder that crashes
//! simply lets the flag expire. Acquisition is an atomic set-if-absent,
//! never a separate check followed by a set.

use vstd::prelude::*;
use crate::core_error::{ErrorType, LogLevel, INTERNAL_DB_ERROR_MESSAGE};
use crate::kv::KvStore;
use crate::MAX_INSTANT;

verus! {

/// Seconds a refresh lock lives. Losing a lock on a crash is an accepted
/// failure mode; this time-to-live bounds the damage.
pub const LOCK_TIMEOUT: i64 = 30;

/// Whether the refresh lock for a user is held at instant `now`.
pub open spec fn spec_lock_held(m: Map<i64, i64>, user_id: i64, now: i64) -> bool {
    m.contains_key(user_id) && now < m[user_id]
}

/// Failures of the key-value store while managing a refresh lock. Callers
/// skip the refresh on such a failure; the read path never depends on it.
#[derive(Debug)]
pub enum LockError {
    /// The store itself reported an error; carries its message.
    RedisError(String),
    /// Getting a connection from the pool took too long.
    ConnectionTimedOut,
}

impl LockError {
    pub open spec fn spec_user_message(self) -> Seq<char> {
        INTERNAL_DB_ERROR_MESSAGE@
    }

    pub open spec fn spec_error_type(self) -> ErrorType {
        ErrorType::DatabaseError
    }

    pub open spec fn spec_log_level(self) -> LogLevel {
        LogLevel::Error
    }

    pub fn user_message(&self) -> (r: String)
        ensures
            r@ == INTERNAL_DB_ERROR_MESSAGE@,
    {
        String::from_str(INTERNAL_DB_ERROR_MESSAGE)
    }

    pub fn error_type(&self) -> (r: ErrorType)
        ensures
            r == ErrorType::DatabaseError,
    {
        ErrorType::DatabaseError
    }

    pub fn log_level(&self) -> (r: LogLevel)
        ensures
            r == LogLevel::Error,
    {
        LogLevel::Error
    }
}

/// Atomically takes the refresh lock for a user if no live lock exists,
/// giving it the lock time-to-live. Yields whether the lock was acquired;
/// a stale, expired flag does not stand in the way.
pub fn lock_user(user_id: i64, db: &mut KvStore, now: i64) -> (r: Result<bool, LockError>)
    requires
        0 <= now <= MAX_INSTANT,
    ensures
        (r matches Ok(acquired) && acquired == !spec_lock_held(old(db).locks_map(), user_id, now)),
        !spec_lock_held(old(db).locks_map(), user_id, now) ==> final(db).locks_map() == old(
            db,
        ).locks_map().insert(user_id, (now + LOCK_TIMEOUT) as i64),
        spec_lock_held(old(db).locks_map(), user_id, now) ==> final(db).locks_map() == old(
            db,
        ).locks_map(),
        final(db).sessions_map() == old(db).sessions_map(),
        final(db).access_map() == old(db).access_map(),
        final(db).refresh_map() == old(db).refresh_map(),
{
    let held: bool = match db.locks.get(&user_id) {
        Some(expires_at) => now < *expires_at,
        None => false,
    };
    if held {
        Ok(false)
    } else {
        db.locks.insert(user_id, now + LOCK_TIMEOUT);
        proof {
            assert(db.access_map() =~= old(db).access_map());
            assert(db.refresh_map() =~= old(db).refresh_map());
        }
        Ok(true)
    }
}

/// Whether the refresh lock for a user is currently held.
pub fn is_user_locked(user_id: i64, db: &KvStore, now: i64) -> (r: Result<bool, LockError>)
    ensures
        r == Ok::<bool, LockError>(spec_lock_held(db.locks_map(), user_id, now)),
{
    match db.locks.get(&user_id) {
        Some(expires_at) => Ok(now < *expires_at),
        None => Ok(false),
    }
}

/// Releases the refresh lock for a user by deleting the flag.
pub fn unlock_user(user_id: i64, db: &mut KvStore) -> (r: Result<(), LockError>)
    ensures
        r is Ok,
        final(db).locks_map() == old(db).locks_map().remove(user_id),
        final(db).sessions_map() == old(db).sessions_map(),
        final(db).access_map() == old(db).access_map(),
        final(db).refresh_map() == old(db).refresh_map(),
{
    db.locks.remove(&user_id);
    proof {
        if !old(db).locks_map().contains_key(user_id) {
            assert(db.locks_map() =~= old(db).locks_map().remove(user_id));
        }
        assert(db.access_map() =~= old(db).access_map());
        assert(db.refresh_map() =~= old(db).refresh_map());
    }
    Ok(())
}

/// Mutual exclusion of the refresh lock: when the lock for a user is free
/// and two attempts race, the attempt that runs first acquires it, and the
/// other, arriving any time before the lock's time-to-live has elapsed,
/// finds it held and does not acquire it — exactly one of the two wins.
pub proof fn lemma_lock_mutual_exclusion(m: Map<i64, i64>, user_id: i64, t1: i64, t2: i64)
    requires
        0 <= t1 <= MAX_INSTANT,
        t1 <= t2 < t1 + LOCK_TIMEOUT,
        !spec_lock_held(m, user_id, t1),
    ensures
        spec_lock_held(m.insert(user_id, (t1 + LOCK_TIMEOUT) as i64), user_id, t2),
{
}

} // verus!

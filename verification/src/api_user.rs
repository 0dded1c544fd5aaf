//! Reconciliation of local user records with the identity provider.
//!
//! Every authenticated read reconstructs the target user's state fresh
//! from the relational store and the lock flag: the user is missing,
//! present and fresh, or present and stale. A missing user is lazily
//! materialized from the provider; a stale user is answered immediately
//! from the stored rows while a refresh is attempted under the per-user
//! lock — the response never waits for the refresh, and a refresh failure
//! never fails the read. The provider fetches are transport work: each
//! step here either answers outright or says which fetch to make, and a
//! second function takes the fetch's outcome and applies it, so a driver
//! alternates one call with one step.

use vstd::prelude::*;
use crate::kv::{get_access_token, spec_access_token, AuthError, KvStore};
use crate::osu_api::OsuApiError;
use crate::result::AppError;
use crate::user::{
    get_full_user, get_user, init_user, spec_outdated, update_user_bio, update_user_name,
    update_user_osu_data, update_user_picture, FullUser, PgStore, User, UserError, UserOsuData,
    UserProfile,
};
use crate::user_lock::{is_user_locked, lock_user, spec_lock_held, unlock_user, LOCK_TIMEOUT};
use crate::MAX_INSTANT;

verus! {

/// A request to materialize a user by id.
#[derive(Clone, Copy, Debug, PartialEq, Eq, Structural)]
pub struct CreateUserRequest {
    pub user_id: i64,
}

/// One profile field in an update request: left alone, cleared, or set to
/// a value. Three states, so that an omitted field and an explicitly
/// cleared field stay distinguishable.
#[derive(Debug)]
pub enum FieldUpdate {
    Leave,
    Clear,
    Assign(String),
}

/// A request to change parts of the caller's own records.
#[derive(Debug)]
pub struct UpdateUserRequest {
    pub user_name: Option<String>,
    pub profile_picture: Option<String>,
    pub bio: FieldUpdate,
}

/// What a read of a user's identity row needs next.
#[derive(Debug)]
pub enum UserReadStep {
    /// The stored row answers the request.
    Done(User),
    /// No local row: fetch the target's profile from the provider with
    /// this access token, then apply `init_missing_user`.
    FetchMissing { access_token: String },
    /// The request fails.
    Failed(AppError),
}

/// What a read of a user's full record needs next.
#[derive(Debug)]
pub enum FullUserReadStep {
    /// The stored join answers the request; no refresh runs.
    Done(FullUser),
    /// The stored join answers the request now; the refresh lock is held
    /// by this request. Fetch the target with this token and apply
    /// `update_user_profile_finish` in the background.
    DoneWithRefresh { user: FullUser, access_token: String },
    /// No local row: fetch the target's profile from the provider with
    /// this access token, then apply `init_missing_full_user`.
    FetchMissing { access_token: String },
    /// The request fails.
    Failed(AppError),
}

/// Reads a user's identity row for an authenticated requester, planning
/// lazy materialization when the row is missing: then the requester's own
/// access token authorizes the fetch of the target's public data.
pub fn get_user_by_id(auth_user_id: i64, query_user_id: i64, kv: &KvStore, pg: &PgStore, now: i64)
    -> (r: UserReadStep)
    ensures
        pg.users_map().contains_key(query_user_id) ==> (r matches UserReadStep::Done(u) && u
            == pg.users_map()[query_user_id]),
        !pg.users_map().contains_key(query_user_id) ==> (match spec_access_token(
            kv.access_map(),
            auth_user_id,
            now,
        ) {
            Some(token) => (r matches UserReadStep::FetchMissing { access_token } && access_token@
                == token),
            None => (r matches UserReadStep::Failed(AppError::AuthError(
                AuthError::ValueNotFound { .. },
            ))),
        }),
{
    match get_user(query_user_id, pg) {
        Ok(user) => UserReadStep::Done(user),
        Err(UserError::UserNotFound(_)) => match get_access_token(auth_user_id, kv, now) {
            Ok(access_token) => UserReadStep::FetchMissing { access_token },
            Err(e) => UserReadStep::Failed(AppError::AuthError(e)),
        },
        Err(e) => UserReadStep::Failed(AppError::UserError(e)),
    }
}

/// Reads the requester's own identity row, materializing it lazily the
/// first time.
pub fn get_user_handler(auth_user_id: i64, kv: &KvStore, pg: &PgStore, now: i64) -> (r:
    UserReadStep)
    ensures
        pg.users_map().contains_key(auth_user_id) ==> (r matches UserReadStep::Done(u) && u
            == pg.users_map()[auth_user_id]),
        !pg.users_map().contains_key(auth_user_id) ==> (match spec_access_token(
            kv.access_map(),
            auth_user_id,
            now,
        ) {
            Some(token) => (r matches UserReadStep::FetchMissing { access_token } && access_token@
                == token),
            None => (r matches UserReadStep::Failed(AppError::AuthError(
                AuthError::ValueNotFound { .. },
            ))),
        }),
{
    get_user_by_id(auth_user_id, auth_user_id, kv, pg, now)
}

/// Plans materialization of an arbitrary user for an authenticated
/// requester, without consulting the store first: applying the fetched
/// profile is idempotent, so a target that already exists is simply read
/// back.
pub fn create_user(auth_user_id: i64, request: CreateUserRequest, kv: &KvStore, now: i64) -> (r:
    UserReadStep)
    ensures
        (match spec_access_token(kv.access_map(), auth_user_id, now) {
            Some(token) => (r matches UserReadStep::FetchMissing { access_token } && access_token@
                == token),
            None => (r matches UserReadStep::Failed(AppError::AuthError(
                AuthError::ValueNotFound { .. },
            ))),
        }),
{
    match get_access_token(auth_user_id, kv, now) {
        Ok(access_token) => UserReadStep::FetchMissing { access_token },
        Err(e) => UserReadStep::Failed(AppError::AuthError(e)),
    }
}

/// Applies a fetched provider profile to a missing user: creates the
/// identity, profile and snapshot rows together and writes the fetched
/// counts. Materialization is idempotent: when the row exists already —
/// also when a racing creator inserted it first — the existing row is
/// returned and nothing is changed, so every caller sees success.
pub fn init_missing_user(osu_user: &crate::osu_api::user::User, pg: &mut PgStore, now: i64) -> (r:
    Result<User, AppError>)
    requires
        old(pg).wf(),
        0 <= now <= MAX_INSTANT,
    ensures
        final(pg).wf(),
        old(pg).users_map().contains_key(osu_user.id) ==> {
            &&& r == Ok::<User, AppError>(old(pg).users_map()[osu_user.id])
            &&& final(pg).users_map() == old(pg).users_map()
            &&& final(pg).profiles_map() == old(pg).profiles_map()
            &&& final(pg).osu_data_map() == old(pg).osu_data_map()
        },
        !old(pg).users_map().contains_key(osu_user.id) ==> {
            &&& r == Ok::<User, AppError>(
                User {
                    id: osu_user.id,
                    user_name: osu_user.username,
                    profile_picture: osu_user.avatar_url,
                    modified_at: now,
                },
            )
            &&& final(pg).users_map() == old(pg).users_map().insert(
                osu_user.id,
                (User {
                    id: osu_user.id,
                    user_name: osu_user.username,
                    profile_picture: osu_user.avatar_url,
                    modified_at: now,
                }),
            )
            &&& final(pg).profiles_map() == old(pg).profiles_map().insert(
                osu_user.id,
                (UserProfile { user_id: osu_user.id, bio: None, featured_maps: None, modified_at: now }),
            )
            &&& final(pg).osu_data_map() == old(pg).osu_data_map().insert(
                osu_user.id,
                (UserOsuData {
                    user_id: osu_user.id,
                    ranked_count: osu_user.stats.ranked,
                    loved_count: osu_user.stats.loved,
                    nominated_count: osu_user.stats.nominated,
                    graveyard_count: osu_user.stats.graveyard,
                    guest_count: osu_user.stats.guest,
                    modified_at: now,
                }),
            )
        },
{
    let ghost pre = *pg;
    match init_user(User::from_osu(osu_user), pg, now) {
        Ok(user) => {
            let _written = update_user_osu_data(osu_user, pg, now);
            proof {
                assert(pg.osu_data_map() =~= pre.osu_data_map().insert(
                    osu_user.id,
                    (UserOsuData {
                        user_id: osu_user.id,
                        ranked_count: osu_user.stats.ranked,
                        loved_count: osu_user.stats.loved,
                        nominated_count: osu_user.stats.nominated,
                        graveyard_count: osu_user.stats.graveyard,
                        guest_count: osu_user.stats.guest,
                        modified_at: now,
                    }),
                ));
            }
            Ok(user)
        },
        // The row appeared concurrently: read it back instead of failing —
        // the conflict is benign, the row is present either way.
        Err(UserError::UserAlreadyExists(_)) => match get_user(osu_user.id, pg) {
            Ok(user) => Ok(user),
            Err(e) => Err(AppError::UserError(e)),
        },
        Err(e) => Err(AppError::UserError(e)),
    }
}

/// Applies a fetched provider profile to a missing user and reads back
/// the full record, as the full-user read path does after materializing.
pub fn init_missing_full_user(osu_user: &crate::osu_api::user::User, pg: &mut PgStore, now: i64)
    -> (r: Result<FullUser, AppError>)
    requires
        old(pg).wf(),
        0 <= now <= MAX_INSTANT,
    ensures
        final(pg).wf(),
        (r matches Ok(fu) && {
            &&& final(pg).users_map().contains_key(osu_user.id)
            &&& fu.matches_rows(
                final(pg).users_map()[osu_user.id],
                final(pg).profiles_map()[osu_user.id],
                final(pg).osu_data_map()[osu_user.id],
            )
        }),
        old(pg).users_map().contains_key(osu_user.id) ==> {
            &&& final(pg).users_map() == old(pg).users_map()
            &&& final(pg).profiles_map() == old(pg).profiles_map()
            &&& final(pg).osu_data_map() == old(pg).osu_data_map()
        },
        !old(pg).users_map().contains_key(osu_user.id) ==> {
            &&& final(pg).users_map() == old(pg).users_map().insert(
                osu_user.id,
                (User {
                    id: osu_user.id,
                    user_name: osu_user.username,
                    profile_picture: osu_user.avatar_url,
                    modified_at: now,
                }),
            )
            &&& final(pg).osu_data_map() == old(pg).osu_data_map().insert(
                osu_user.id,
                (UserOsuData {
                    user_id: osu_user.id,
                    ranked_count: osu_user.stats.ranked,
                    loved_count: osu_user.stats.loved,
                    nominated_count: osu_user.stats.nominated,
                    graveyard_count: osu_user.stats.graveyard,
                    guest_count: osu_user.stats.guest,
                    modified_at: now,
                }),
            )
        },
{
    let materialized = init_missing_user(osu_user, pg, now);
    match get_full_user(osu_user.id, pg) {
        Ok(full_user) => Ok(full_user),
        Err(e) => Err(AppError::UserError(e)),
    }
}

/// Begins the locked refresh of a user's snapshot, steps one to three of
/// the protocol: when no live lock exists, the lock is taken atomically
/// and the requester's access token is read to authorize the fetch. A
/// held lock means another request is already refreshing — the refresh is
/// skipped with nothing changed. A requester without a live access token
/// cannot refresh either; the lock is then released at once rather than
/// left to expire.
pub fn update_user_profile_begin(
    requester_user_id: i64,
    user_id_to_update: i64,
    kv: &mut KvStore,
    now: i64,
) -> (r: Option<String>)
    requires
        0 <= now <= MAX_INSTANT,
    ensures
        final(kv).sessions_map() == old(kv).sessions_map(),
        final(kv).access_map() == old(kv).access_map(),
        final(kv).refresh_map() == old(kv).refresh_map(),
        spec_lock_held(old(kv).locks_map(), user_id_to_update, now) ==> {
            &&& r is None
            &&& final(kv).locks_map() == old(kv).locks_map()
        },
        !spec_lock_held(old(kv).locks_map(), user_id_to_update, now) ==> (match spec_access_token(
            old(kv).access_map(),
            requester_user_id,
            now,
        ) {
            Some(token) => {
                &&& (r matches Some(access_token) && access_token@ == token)
                &&& final(kv).locks_map() == old(kv).locks_map().insert(
                    user_id_to_update,
                    (now + LOCK_TIMEOUT) as i64,
                )
            },
            None => {
                &&& r is None
                &&& final(kv).locks_map() == old(kv).locks_map().remove(user_id_to_update)
            },
        }),
{
    let held = match is_user_locked(user_id_to_update, kv, now) {
        Ok(held) => held,
        Err(_) => true,
    };
    if held {
        return None;
    }
    let _acquired = lock_user(user_id_to_update, kv, now);
    match get_access_token(requester_user_id, kv, now) {
        Ok(access_token) => Some(access_token),
        Err(_) => {
            let _released = unlock_user(user_id_to_update, kv);
            None
        },
    }
}

/// Finishes the locked refresh, steps four and five: writes the fetched
/// snapshot — when the fetch succeeded and the user still exists — and
/// releases the lock. A failed fetch, like a vanished user, changes no
/// rows: the refresh is best-effort and the read it ran behind already
/// answered.
pub fn update_user_profile_finish(
    user_id_to_update: i64,
    fetched: Result<crate::osu_api::user::User, OsuApiError>,
    kv: &mut KvStore,
    pg: &mut PgStore,
    now: i64,
) -> (r: Result<(), AppError>)
    requires
        old(pg).wf(),
        0 <= now <= MAX_INSTANT,
    ensures
        final(pg).wf(),
        r is Ok,
        final(kv).sessions_map() == old(kv).sessions_map(),
        final(kv).access_map() == old(kv).access_map(),
        final(kv).refresh_map() == old(kv).refresh_map(),
        final(kv).locks_map() == old(kv).locks_map().remove(user_id_to_update),
        final(pg).users_map() == old(pg).users_map(),
        final(pg).profiles_map() == old(pg).profiles_map(),
        (match fetched {
            Ok(osu_user) => {
                if old(pg).users_map().contains_key(osu_user.id) {
                    final(pg).osu_data_map() == old(pg).osu_data_map().insert(
                        osu_user.id,
                        (UserOsuData {
                            user_id: osu_user.id,
                            ranked_count: osu_user.stats.ranked,
                            loved_count: osu_user.stats.loved,
                            nominated_count: osu_user.stats.nominated,
                            graveyard_count: osu_user.stats.graveyard,
                            guest_count: osu_user.stats.guest,
                            modified_at: now,
                        }),
                    )
                } else {
                    final(pg).osu_data_map() == old(pg).osu_data_map()
                }
            },
            Err(_) => final(pg).osu_data_map() == old(pg).osu_data_map(),
        }),
{
    if let Ok(osu_user) = &fetched {
        let _written = update_user_osu_data(osu_user, pg, now);
    }
    let _released = unlock_user(user_id_to_update, kv);
    Ok(())
}

/// Reads a user's full record for an authenticated requester. A present
/// user is answered from the stored rows at once; when the snapshot is
/// more than three hours old a locked refresh is begun behind the
/// response, and a held lock or missing token merely skips it. A missing
/// user is materialized first.
pub fn get_full_user_by_id(
    auth_user_id: i64,
    query_user_id: i64,
    kv: &mut KvStore,
    pg: &PgStore,
    now: i64,
) -> (r: FullUserReadStep)
    requires
        pg.wf(),
        0 <= now <= MAX_INSTANT,
    ensures
        final(kv).sessions_map() == old(kv).sessions_map(),
        final(kv).access_map() == old(kv).access_map(),
        final(kv).refresh_map() == old(kv).refresh_map(),
        pg.users_map().contains_key(query_user_id) ==> {
            let stale = spec_outdated(pg.osu_data_map()[query_user_id].modified_at, now);
            &&& (!stale ==> (r matches FullUserReadStep::Done(fu) && fu.matches_rows(
                pg.users_map()[query_user_id],
                pg.profiles_map()[query_user_id],
                pg.osu_data_map()[query_user_id],
            ) && final(kv).locks_map() == old(kv).locks_map()))
            &&& (stale ==> {
                let held = spec_lock_held(old(kv).locks_map(), query_user_id, now);
                let token = spec_access_token(old(kv).access_map(), auth_user_id, now);
                &&& (held ==> (r matches FullUserReadStep::Done(fu) && fu.matches_rows(
                    pg.users_map()[query_user_id],
                    pg.profiles_map()[query_user_id],
                    pg.osu_data_map()[query_user_id],
                ) && final(kv).locks_map() == old(kv).locks_map()))
                &&& (!held ==> (match token {
                    Some(t) => (r matches FullUserReadStep::DoneWithRefresh { user, access_token }
                        && user.matches_rows(
                        pg.users_map()[query_user_id],
                        pg.profiles_map()[query_user_id],
                        pg.osu_data_map()[query_user_id],
                    ) && access_token@ == t && final(kv).locks_map() == old(
                        kv,
                    ).locks_map().insert(query_user_id, (now + LOCK_TIMEOUT) as i64)),
                    None => (r matches FullUserReadStep::Done(fu) && fu.matches_rows(
                        pg.users_map()[query_user_id],
                        pg.profiles_map()[query_user_id],
                        pg.osu_data_map()[query_user_id],
                    ) && final(kv).locks_map() == old(kv).locks_map().remove(query_user_id)),
                }))
            })
        },
        !pg.users_map().contains_key(query_user_id) ==> {
            &&& final(kv).locks_map() == old(kv).locks_map()
            &&& (match spec_access_token(old(kv).access_map(), auth_user_id, now) {
                Some(token) => (r matches FullUserReadStep::FetchMissing { access_token }
                    && access_token@ == token),
                None => (r matches FullUserReadStep::Failed(AppError::AuthError(
                    AuthError::ValueNotFound { .. },
                ))),
            })
        },
{
    match get_full_user(query_user_id, pg) {
        Ok(full_user) => {
            if full_user.is_outdated(now) {
                match update_user_profile_begin(auth_user_id, query_user_id, kv, now) {
                    Some(access_token) => FullUserReadStep::DoneWithRefresh {
                        user: full_user,
                        access_token,
                    },
                    None => FullUserReadStep::Done(full_user),
                }
            } else {
                FullUserReadStep::Done(full_user)
            }
        },
        Err(UserError::UserNotFound(_)) => match get_access_token(auth_user_id, kv, now) {
            Ok(access_token) => FullUserReadStep::FetchMissing { access_token },
            Err(e) => FullUserReadStep::Failed(AppError::AuthError(e)),
        },
        Err(e) => FullUserReadStep::Failed(AppError::UserError(e)),
    }
}

/// Reads the requester's own full record, with the same staleness and
/// materialization behavior.
pub fn get_full_user_handler(auth_user_id: i64, kv: &mut KvStore, pg: &PgStore, now: i64) -> (r:
    FullUserReadStep)
    requires
        pg.wf(),
        0 <= now <= MAX_INSTANT,
    ensures
        final(kv).sessions_map() == old(kv).sessions_map(),
        final(kv).access_map() == old(kv).access_map(),
        final(kv).refresh_map() == old(kv).refresh_map(),
        pg.users_map().contains_key(auth_user_id) ==> {
            let stale = spec_outdated(pg.osu_data_map()[auth_user_id].modified_at, now);
            &&& (!stale ==> (r matches FullUserReadStep::Done(fu) && fu.matches_rows(
                pg.users_map()[auth_user_id],
                pg.profiles_map()[auth_user_id],
                pg.osu_data_map()[auth_user_id],
            ) && final(kv).locks_map() == old(kv).locks_map()))
            &&& (stale ==> {
                let held = spec_lock_held(old(kv).locks_map(), auth_user_id, now);
                let token = spec_access_token(old(kv).access_map(), auth_user_id, now);
                &&& (held ==> (r matches FullUserReadStep::Done(fu) && fu.matches_rows(
                    pg.users_map()[auth_user_id],
                    pg.profiles_map()[auth_user_id],
                    pg.osu_data_map()[auth_user_id],
                ) && final(kv).locks_map() == old(kv).locks_map()))
                &&& (!held ==> (match token {
                    Some(t) => (r matches FullUserReadStep::DoneWithRefresh { user, access_token }
                        && user.matches_rows(
                        pg.users_map()[auth_user_id],
                        pg.profiles_map()[auth_user_id],
                        pg.osu_data_map()[auth_user_id],
                    ) && access_token@ == t && final(kv).locks_map() == old(
                        kv,
                    ).locks_map().insert(auth_user_id, (now + LOCK_TIMEOUT) as i64)),
                    None => (r matches FullUserReadStep::Done(fu) && fu.matches_rows(
                        pg.users_map()[auth_user_id],
                        pg.profiles_map()[auth_user_id],
                        pg.osu_data_map()[auth_user_id],
                    ) && final(kv).locks_map() == old(kv).locks_map().remove(auth_user_id)),
                }))
            })
        },
        !pg.users_map().contains_key(auth_user_id) ==> {
            &&& final(kv).locks_map() == old(kv).locks_map()
            &&& (match spec_access_token(old(kv).access_map(), auth_user_id, now) {
                Some(token) => (r matches FullUserReadStep::FetchMissing { access_token }
                    && access_token@ == token),
                None => (r matches FullUserReadStep::Failed(AppError::AuthError(
                    AuthError::ValueNotFound { .. },
                ))),
            })
        },
{
    get_full_user_by_id(auth_user_id, auth_user_id, kv, pg, now)
}

/// Applies an update request to the caller's own records: the display
/// name, then the picture, then the biography, each only when the request
/// carries it, each stamping its row. The first failure aborts what
/// remains; a request that touches nothing succeeds with nothing changed.
pub fn update_user(
    user_id: i64,
    request: &UpdateUserRequest,
    pg: &mut PgStore,
    now: i64,
) -> (r: Result<(), AppError>)
    requires
        old(pg).wf(),
        0 <= now <= MAX_INSTANT,
    ensures
        final(pg).wf(),
        final(pg).osu_data_map() == old(pg).osu_data_map(),
        old(pg).users_map().contains_key(user_id) ==> {
            &&& r is Ok
            &&& final(pg).users_map().dom() == old(pg).users_map().dom()
            &&& final(pg).profiles_map().dom() == old(pg).profiles_map().dom()
            &&& final(pg).users_map()[user_id].id == user_id
            &&& final(pg).users_map()[user_id].user_name@ == (match request.user_name {
                Some(name) => name@,
                None => old(pg).users_map()[user_id].user_name@,
            })
            &&& final(pg).users_map()[user_id].profile_picture@ == (match request.profile_picture {
                Some(picture) => picture@,
                None => old(pg).users_map()[user_id].profile_picture@,
            })
            &&& final(pg).users_map()[user_id].modified_at == (
            if request.user_name is Some || request.profile_picture is Some {
                now
            } else {
                old(pg).users_map()[user_id].modified_at
            })
            &&& (match request.bio {
                FieldUpdate::Leave => final(pg).profiles_map()[user_id].same(
                    old(pg).profiles_map()[user_id],
                ),
                FieldUpdate::Clear => final(pg).profiles_map()[user_id].bio is None,
                FieldUpdate::Assign(text) => (final(pg).profiles_map()[user_id].bio matches Some(
                    stored,
                ) && stored@ == text@),
            })
            &&& (!(request.bio is Leave) ==> {
                &&& final(pg).profiles_map()[user_id].modified_at == now
                &&& crate::user::opt_maps_same(
                    final(pg).profiles_map()[user_id].featured_maps,
                    old(pg).profiles_map()[user_id].featured_maps,
                )
            })
            &&& (forall|k: i64|
                k != user_id && old(pg).users_map().contains_key(k) ==> final(pg).users_map()[k]
                    == old(pg).users_map()[k])
            &&& (forall|k: i64|
                k != user_id && old(pg).profiles_map().contains_key(k)
                    ==> final(pg).profiles_map()[k] == old(pg).profiles_map()[k])
        },
        !old(pg).users_map().contains_key(user_id) ==> {
            &&& final(pg).users_map() == old(pg).users_map()
            &&& final(pg).profiles_map() == old(pg).profiles_map()
            &&& (if request.user_name is Some || request.profile_picture is Some || !(request.bio
                is Leave) {
                r == Err::<(), AppError>(AppError::UserError(UserError::UserNotFound(user_id)))
            } else {
                r is Ok
            })
        },
{
    if let Some(user_name) = &request.user_name {
        match update_user_name(user_name.as_str(), user_id, pg, now) {
            Ok(()) => {},
            Err(e) => { return Err(AppError::UserError(e)) },
        }
    }
    if let Some(profile_picture) = &request.profile_picture {
        match update_user_picture(profile_picture.as_str(), user_id, pg, now) {
            Ok(()) => {},
            Err(e) => { return Err(AppError::UserError(e)) },
        }
    }
    match &request.bio {
        FieldUpdate::Leave => {},
        FieldUpdate::Clear => match update_user_bio(None, user_id, pg, now) {
            Ok(()) => {},
            Err(e) => { return Err(AppError::UserError(e)) },
        },
        FieldUpdate::Assign(text) => match update_user_bio(Some(text.as_str()), user_id, pg, now) {
            Ok(()) => {},
            Err(e) => { return Err(AppError::UserError(e)) },
        },
    }
    Ok(())
}

/// Materialization is idempotent: ensuring a user row exists and then
/// ensuring it again — as two racing requests for the same new id do —
/// yields the same store as ensuring it once, and both passes end with
/// the row present, so neither caller sees a failure.
pub proof fn lemma_materialization_idempotent(m: Map<i64, User>, row: User)
    ensures
        ({
            let once = if m.contains_key(row.id) {
                m
            } else {
                m.insert(row.id, row)
            };
            let twice = if once.contains_key(row.id) {
                once
            } else {
                once.insert(row.id, row)
            };
            twice == once && once.contains_key(row.id)
        }),
{
}

} // verus!

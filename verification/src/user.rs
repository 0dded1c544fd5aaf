//! Model of the relational user store.
//!
//! Three tables hold a user's durable data: the identity row, the profile
//! row and the external-data snapshot. A user row exists exactly when its
//! profile and snapshot rows exist — the three are created together in one
//! transaction — and this invariant is carried by every operation here.
//! Timestamps are instants in seconds; the store stamps rows itself when
//! they are written, from the instant handed in by the caller.

use vstd::prelude::*;
use vstd::hash_map::HashMapWithView;
use vstd::string::StringExecFns;
use crate::core_error::{ErrorType, LogLevel, INTERNAL_DB_ERROR_MESSAGE};
use crate::osu_api::beatmap::Beatmapset;
use crate::session_token::{format_i64, spec_format_i64};
use crate::MAX_INSTANT;

verus! {

broadcast use vstd::std_specs::hash::group_hash_axioms;

/// Seconds after which an external-data snapshot counts as outdated:
/// more than three hours.
pub const OUTDATED_AFTER_SECONDS: i64 = 10800;

/// A user's durable identity row.
#[derive(Clone, Debug)]
pub struct User {
    /// Id of the user at the identity provider; never generated locally.
    pub id: i64,
    /// Last known display name.
    pub user_name: String,
    /// Link to the profile picture.
    pub profile_picture: String,
    /// Last modification instant.
    pub modified_at: i64,
}

impl User {
    /// Field-for-field equality.
    pub open spec fn same(self, other: User) -> bool {
        self.id == other.id && self.user_name@ == other.user_name@ && self.profile_picture@
            == other.profile_picture@ && self.modified_at == other.modified_at
    }

    pub fn new(id: i64, user_name: String, profile_picture: String) -> (r: Self)
        ensures
            r.id == id,
            r.user_name == user_name,
            r.profile_picture == profile_picture,
            r.modified_at == 0,
    {
        Self { id, user_name, profile_picture, modified_at: 0 }
    }

    /// The identity row for a freshly fetched provider profile.
    pub fn from_osu(osu_user: &crate::osu_api::user::User) -> (r: Self)
        ensures
            r == (User {
                id: osu_user.id,
                user_name: osu_user.username,
                profile_picture: osu_user.avatar_url,
                modified_at: 0,
            }),
    {
        Self {
            id: osu_user.id,
            user_name: osu_user.username.clone(),
            profile_picture: osu_user.avatar_url.clone(),
            modified_at: 0,
        }
    }

    pub fn duplicate(&self) -> (r: User)
        ensures
            r == *self,
    {
        User {
            id: self.id,
            user_name: self.user_name.clone(),
            profile_picture: self.profile_picture.clone(),
            modified_at: self.modified_at,
        }
    }
}

/// One featured map: the beatmapset it belongs to and the chosen map.
#[derive(Clone, Debug)]
pub struct Maps {
    pub beatmapset: Beatmapset,
    pub featured_map_id: i64,
}

impl Maps {
    /// Field-for-field equality.
    pub open spec fn same(self, other: Maps) -> bool {
        self.beatmapset.same(other.beatmapset) && self.featured_map_id == other.featured_map_id
    }

    pub fn duplicate(&self) -> (r: Maps)
        ensures
            r.same(*self),
    {
        Maps { beatmapset: self.beatmapset.duplicate(), featured_map_id: self.featured_map_id }
    }
}

/// The featured maps a user shows on their profile.
#[derive(Clone, Debug)]
pub struct FeaturedMaps {
    pub maps: Vec<Maps>,
}

impl FeaturedMaps {
    /// Entry-for-entry equality.
    pub open spec fn same(self, other: FeaturedMaps) -> bool {
        self.maps@.len() == other.maps@.len() && (forall|i: int|
            0 <= i < self.maps@.len() ==> (#[trigger] self.maps@[i]).same(other.maps@[i]))
    }

    pub fn duplicate(&self) -> (r: FeaturedMaps)
        ensures
            r.same(*self),
    {
        let mut maps: Vec<Maps> = Vec::new();
        let mut i: usize = 0;
        while i < self.maps.len()
            invariant
                0 <= i <= self.maps@.len(),
                maps@.len() == i,
                forall|j: int| 0 <= j < i ==> (#[trigger] maps@[j]).same(self.maps@[j]),
            decreases self.maps@.len() - i,
        {
            maps.push(self.maps[i].duplicate());
            i = i + 1;
        }
        FeaturedMaps { maps }
    }
}

/// Whether two optional featured-map blobs hold the same entries.
pub open spec fn opt_maps_same(a: Option<FeaturedMaps>, b: Option<FeaturedMaps>) -> bool {
    match (a, b) {
        (Some(x), Some(y)) => x.same(y),
        (None, None) => true,
        _ => false,
    }
}

/// Whether two optional strings hold the same text.
pub open spec fn opt_str_eq(a: Option<String>, b: Option<String>) -> bool {
    match (a, b) {
        (Some(x), Some(y)) => x@ == y@,
        (None, None) => true,
        _ => false,
    }
}

/// A user's durable profile row, in one-to-one correspondence with the
/// identity row.
#[derive(Clone, Debug)]
pub struct UserProfile {
    /// References the user id of the identity row.
    pub user_id: i64,
    /// Biography, if the user set one.
    pub bio: Option<String>,
    /// Featured maps, if the user chose any.
    pub featured_maps: Option<FeaturedMaps>,
    /// Last modification instant.
    pub modified_at: i64,
}

impl UserProfile {
    /// Field-for-field equality.
    pub open spec fn same(self, other: UserProfile) -> bool {
        self.user_id == other.user_id && opt_str_eq(self.bio, other.bio) && opt_maps_same(
            self.featured_maps,
            other.featured_maps,
        ) && self.modified_at == other.modified_at
    }
}

/// A user's external-data snapshot: counts of the maps the user owns in
/// each lifecycle state, as last fetched from the provider. This is the
/// row subject to staleness.
#[derive(Clone, Copy, Debug, PartialEq, Eq, Structural)]
pub struct UserOsuData {
    /// References the user id of the identity row.
    pub user_id: i64,
    pub ranked_count: i32,
    pub loved_count: i32,
    pub nominated_count: i32,
    pub graveyard_count: i32,
    pub guest_count: i32,
    /// Last modification instant.
    pub modified_at: i64,
}

/// The join of a user's identity, profile and snapshot rows.
#[derive(Clone, Debug)]
pub struct FullUser {
    pub id: i64,
    pub user_name: String,
    pub profile_picture: String,
    pub bio: Option<String>,
    pub featured_maps: Option<FeaturedMaps>,
    pub ranked_count: i32,
    pub loved_count: i32,
    pub nominated_count: i32,
    pub graveyard_count: i32,
    pub guest_count: i32,
    /// When the snapshot was last written.
    pub osu_data_modified_at: i64,
    /// When the profile was last written.
    pub profile_data_modified_at: i64,
}

/// Whether a snapshot written at `modified_at` counts as outdated at
/// `now`: more than three hours must have elapsed, so a snapshot exactly
/// three hours old is still fresh and one a second older is not.
pub open spec fn spec_outdated(modified_at: i64, now: i64) -> bool {
    now - modified_at > OUTDATED_AFTER_SECONDS
}

impl FullUser {
    /// Whether the join matches the three given rows.
    pub open spec fn matches_rows(self, u: User, p: UserProfile, o: UserOsuData) -> bool {
        &&& self.id == u.id
        &&& self.user_name@ == u.user_name@
        &&& self.profile_picture@ == u.profile_picture@
        &&& opt_str_eq(self.bio, p.bio)
        &&& opt_maps_same(self.featured_maps, p.featured_maps)
        &&& self.ranked_count == o.ranked_count
        &&& self.loved_count == o.loved_count
        &&& self.nominated_count == o.nominated_count
        &&& self.graveyard_count == o.graveyard_count
        &&& self.guest_count == o.guest_count
        &&& self.osu_data_modified_at == o.modified_at
        &&& self.profile_data_modified_at == p.modified_at
    }

    /// Whether the snapshot behind this row is outdated at instant `now`.
    pub fn is_outdated(&self, now: i64) -> (r: bool)
        requires
            0 <= self.osu_data_modified_at <= MAX_INSTANT,
            0 <= now <= MAX_INSTANT,
        ensures
            r == spec_outdated(self.osu_data_modified_at, now),
    {
        now - self.osu_data_modified_at > OUTDATED_AFTER_SECONDS
    }
}

/// The relational store: the three tables, keyed by user id.
pub struct PgStore {
    pub users: HashMapWithView<i64, User>,
    pub profiles: HashMapWithView<i64, UserProfile>,
    pub osu_data: HashMapWithView<i64, UserOsuData>,
}

impl PgStore {
    pub open spec fn users_map(self) -> Map<i64, User> {
        self.users@
    }

    pub open spec fn profiles_map(self) -> Map<i64, UserProfile> {
        self.profiles@
    }

    pub open spec fn osu_data_map(self) -> Map<i64, UserOsuData> {
        self.osu_data@
    }

    /// Well-formedness: a user row exists exactly when its profile and
    /// snapshot rows exist, every row is filed under its own user id, and
    /// every stored instant is a plausible clock reading.
    pub open spec fn wf(self) -> bool {
        &&& (forall|k: i64| self.users@.contains_key(k) <==> self.profiles@.contains_key(k))
        &&& (forall|k: i64| self.users@.contains_key(k) <==> self.osu_data@.contains_key(k))
        &&& (forall|k: i64| #[trigger] self.users@.contains_key(k) ==> self.users@[k].id == k)
        &&& (forall|k: i64| #[trigger] self.profiles@.contains_key(k) ==> self.profiles@[k].user_id
            == k)
        &&& (forall|k: i64| #[trigger] self.osu_data@.contains_key(k) ==> self.osu_data@[k].user_id
            == k)
        &&& (forall|k: i64| #[trigger] self.users@.contains_key(k) ==> 0 <= self.users@[k].modified_at
            <= MAX_INSTANT)
        &&& (forall|k: i64| #[trigger] self.profiles@.contains_key(k) ==> 0
            <= self.profiles@[k].modified_at <= MAX_INSTANT)
        &&& (forall|k: i64| #[trigger] self.osu_data@.contains_key(k) ==> 0
            <= self.osu_data@[k].modified_at <= MAX_INSTANT)
    }

    pub fn new() -> (r: PgStore)
        ensures
            r.wf(),
            r.users_map() == Map::<i64, User>::empty(),
            r.profiles_map() == Map::<i64, UserProfile>::empty(),
            r.osu_data_map() == Map::<i64, UserOsuData>::empty(),
    {
        PgStore {
            users: HashMapWithView::new(),
            profiles: HashMapWithView::new(),
            osu_data: HashMapWithView::new(),
        }
    }
}

/// Failures of the relational store and of reads against it.
#[derive(Debug)]
pub enum UserError {
    /// No user row exists for this id. Expected on first contact with a
    /// user: it drives lazy materialization rather than surfacing.
    UserNotFound(i64),
    /// A row for this id already exists. Expected under concurrent
    /// materialization races; absorbed by callers that only need the row
    /// to exist.
    UserAlreadyExists(i64),
    /// The store itself reported an error; carries its message.
    DatabaseError(String),
    /// A stored blob could not be rendered or read; carries the message.
    SerdeError(String),
}

impl UserError {
    pub open spec fn spec_user_message(self) -> Seq<char> {
        match self {
            UserError::UserNotFound(id) => "User with id `"@ + spec_format_i64(id as int)
                + "` is not found."@,
            UserError::UserAlreadyExists(id) => "User with id `"@ + spec_format_i64(id as int)
                + "` already exists."@,
            UserError::DatabaseError(_) => INTERNAL_DB_ERROR_MESSAGE@,
            UserError::SerdeError(_) => INTERNAL_DB_ERROR_MESSAGE@,
        }
    }

    pub open spec fn spec_error_type(self) -> ErrorType {
        match self {
            UserError::UserNotFound(_) => ErrorType::DataNotFound,
            UserError::UserAlreadyExists(_) => ErrorType::DuplicateEntry,
            UserError::DatabaseError(_) => ErrorType::DatabaseError,
            UserError::SerdeError(_) => ErrorType::DeserializeError,
        }
    }

    pub open spec fn spec_log_level(self) -> LogLevel {
        match self {
            UserError::UserNotFound(_) => LogLevel::Warn,
            UserError::UserAlreadyExists(_) => LogLevel::Warn,
            UserError::DatabaseError(_) => LogLevel::Error,
            UserError::SerdeError(_) => LogLevel::Error,
        }
    }

    pub fn user_message(&self) -> (r: String)
        ensures
            r@ == self.spec_user_message(),
    {
        match self {
            UserError::UserNotFound(id) => {
                let mut out = String::from_str("User with id `");
                out.append(format_i64(*id).as_str());
                out.append("` is not found.");
                out
            },
            UserError::UserAlreadyExists(id) => {
                let mut out = String::from_str("User with id `");
                out.append(format_i64(*id).as_str());
                out.append("` already exists.");
                out
            },
            UserError::DatabaseError(_) => String::from_str(INTERNAL_DB_ERROR_MESSAGE),
            UserError::SerdeError(_) => String::from_str(INTERNAL_DB_ERROR_MESSAGE),
        }
    }

    pub fn error_type(&self) -> (r: ErrorType)
        ensures
            r == self.spec_error_type(),
    {
        match self {
            UserError::UserNotFound(_) => ErrorType::DataNotFound,
            UserError::UserAlreadyExists(_) => ErrorType::DuplicateEntry,
            UserError::DatabaseError(_) => ErrorType::DatabaseError,
            UserError::SerdeError(_) => ErrorType::DeserializeError,
        }
    }

    pub fn log_level(&self) -> (r: LogLevel)
        ensures
            r == self.spec_log_level(),
    {
        match self {
            UserError::UserNotFound(_) => LogLevel::Warn,
            UserError::UserAlreadyExists(_) => LogLevel::Warn,
            UserError::DatabaseError(_) => LogLevel::Error,
            UserError::SerdeError(_) => LogLevel::Error,
        }
    }
}

/// Classifies the store's report of a refused user insert, as the
/// creation path must: a unique-key violation means the user already
/// exists — the benign race — and anything else is an internal store
/// failure carrying its message.
pub fn classify_user_insert_error(pg_db_error_code: &str, user_id: i64, message: String) -> (r:
    UserError)
    ensures
        pg_db_error_code@ == crate::PG_UNIQUE_KEY_VIOLATION@ ==> r == UserError::UserAlreadyExists(
            user_id,
        ),
        pg_db_error_code@ != crate::PG_UNIQUE_KEY_VIOLATION@ ==> r == UserError::DatabaseError(
            message,
        ),
{
    if crate::text::str_eq(pg_db_error_code, crate::PG_UNIQUE_KEY_VIOLATION) {
        UserError::UserAlreadyExists(user_id)
    } else {
        UserError::DatabaseError(message)
    }
}

/// Reads a user's identity row. Absence is a distinguishable outcome, not
/// a hard failure.
pub fn get_user(user_id: i64, db: &PgStore) -> (r: Result<User, UserError>)
    ensures
        db.users_map().contains_key(user_id) ==> r == Ok::<User, UserError>(
            db.users_map()[user_id],
        ),
        !db.users_map().contains_key(user_id) ==> r == Err::<User, UserError>(
            UserError::UserNotFound(user_id),
        ),
{
    match db.users.get(&user_id) {
        Some(user) => Ok(user.duplicate()),
        None => Err(UserError::UserNotFound(user_id)),
    }
}

/// Reads the join of a user's identity, profile and snapshot rows.
pub fn get_full_user(user_id: i64, db: &PgStore) -> (r: Result<FullUser, UserError>)
    requires
        db.wf(),
    ensures
        db.users_map().contains_key(user_id) ==> (r matches Ok(fu) && fu.matches_rows(
            db.users_map()[user_id],
            db.profiles_map()[user_id],
            db.osu_data_map()[user_id],
        )),
        !db.users_map().contains_key(user_id) ==> r == Err::<FullUser, UserError>(
            UserError::UserNotFound(user_id),
        ),
{
    let user = match db.users.get(&user_id) {
        Some(user) => user,
        None => { return Err(UserError::UserNotFound(user_id)) },
    };
    let profile = match db.profiles.get(&user_id) {
        Some(profile) => profile,
        None => { return Err(UserError::UserNotFound(user_id)) },
    };
    let osu = match db.osu_data.get(&user_id) {
        Some(osu) => osu,
        None => { return Err(UserError::UserNotFound(user_id)) },
    };
    let featured_maps = match &profile.featured_maps {
        Some(maps) => Some(maps.duplicate()),
        None => None,
    };
    let bio = match &profile.bio {
        Some(text) => Some(text.clone()),
        None => None,
    };
    Ok(
        FullUser {
            id: user.id,
            user_name: user.user_name.clone(),
            profile_picture: user.profile_picture.clone(),
            bio,
            featured_maps,
            ranked_count: osu.ranked_count,
            loved_count: osu.loved_count,
            nominated_count: osu.nominated_count,
            graveyard_count: osu.graveyard_count,
            guest_count: osu.guest_count,
            osu_data_modified_at: osu.modified_at,
            profile_data_modified_at: profile.modified_at,
        },
    )
}

/// Creates a user: the identity row, an empty profile row and a zeroed
/// snapshot row, together or not at all. A duplicate id aborts the whole
/// creation, leaves the store untouched, and is reported as such so that
/// racing creators can absorb it.
pub fn init_user(user: User, db: &mut PgStore, now: i64) -> (r: Result<User, UserError>)
    requires
        old(db).wf(),
        0 <= now <= MAX_INSTANT,
    ensures
        final(db).wf(),
        old(db).users_map().contains_key(user.id) ==> {
            &&& r == Err::<User, UserError>(UserError::UserAlreadyExists(user.id))
            &&& final(db).users_map() == old(db).users_map()
            &&& final(db).profiles_map() == old(db).profiles_map()
            &&& final(db).osu_data_map() == old(db).osu_data_map()
        },
        !old(db).users_map().contains_key(user.id) ==> {
            &&& r == Ok::<User, UserError>(
                User {
                    id: user.id,
                    user_name: user.user_name,
                    profile_picture: user.profile_picture,
                    modified_at: now,
                },
            )
            &&& final(db).users_map() == old(db).users_map().insert(
                user.id,
                (User {
                    id: user.id,
                    user_name: user.user_name,
                    profile_picture: user.profile_picture,
                    modified_at: now,
                }),
            )
            &&& final(db).profiles_map() == old(db).profiles_map().insert(
                user.id,
                (UserProfile { user_id: user.id, bio: None, featured_maps: None, modified_at: now }),
            )
            &&& final(db).osu_data_map() == old(db).osu_data_map().insert(
                user.id,
                (UserOsuData {
                    user_id: user.id,
                    ranked_count: 0,
                    loved_count: 0,
                    nominated_count: 0,
                    graveyard_count: 0,
                    guest_count: 0,
                    modified_at: now,
                }),
            )
        },
{
    if db.users.contains_key(&user.id) {
        return Err(UserError::UserAlreadyExists(user.id));
    }
    let row = User {
        id: user.id,
        user_name: user.user_name,
        profile_picture: user.profile_picture,
        modified_at: now,
    };
    let inserted = row.duplicate();
    db.users.insert(user.id, row);
    db.profiles.insert(
        user.id,
        UserProfile { user_id: user.id, bio: None, featured_maps: None, modified_at: now },
    );
    db.osu_data.insert(
        user.id,
        UserOsuData {
            user_id: user.id,
            ranked_count: 0,
            loved_count: 0,
            nominated_count: 0,
            graveyard_count: 0,
            guest_count: 0,
            modified_at: now,
        },
    );
    Ok(inserted)
}

/// Writes a freshly fetched snapshot for the user the provider profile
/// belongs to: the five counts, stamped with the given instant.
pub fn update_user_osu_data(
    user_osu_data: &crate::osu_api::user::User,
    db: &mut PgStore,
    now: i64,
) -> (r: Result<(), UserError>)
    requires
        old(db).wf(),
        0 <= now <= MAX_INSTANT,
    ensures
        final(db).wf(),
        final(db).users_map() == old(db).users_map(),
        final(db).profiles_map() == old(db).profiles_map(),
        old(db).users_map().contains_key(user_osu_data.id) ==> {
            &&& r is Ok
            &&& final(db).osu_data_map() == old(db).osu_data_map().insert(
                user_osu_data.id,
                (UserOsuData {
                    user_id: user_osu_data.id,
                    ranked_count: user_osu_data.stats.ranked,
                    loved_count: user_osu_data.stats.loved,
                    nominated_count: user_osu_data.stats.nominated,
                    graveyard_count: user_osu_data.stats.graveyard,
                    guest_count: user_osu_data.stats.guest,
                    modified_at: now,
                }),
            )
        },
        !old(db).users_map().contains_key(user_osu_data.id) ==> {
            &&& r == Err::<(), UserError>(UserError::UserNotFound(user_osu_data.id))
            &&& final(db).osu_data_map() == old(db).osu_data_map()
        },
{
    if !db.users.contains_key(&user_osu_data.id) {
        return Err(UserError::UserNotFound(user_osu_data.id));
    }
    db.osu_data.insert(
        user_osu_data.id,
        UserOsuData {
            user_id: user_osu_data.id,
            ranked_count: user_osu_data.stats.ranked,
            loved_count: user_osu_data.stats.loved,
            nominated_count: user_osu_data.stats.nominated,
            graveyard_count: user_osu_data.stats.graveyard,
            guest_count: user_osu_data.stats.guest,
            modified_at: now,
        },
    );
    Ok(())
}

/// Replaces the featured maps on a user's profile row, stamping it.
pub fn update_user_featured_maps(user_id: i64, maps: FeaturedMaps, db: &mut PgStore, now: i64) -> (r:
    Result<(), UserError>)
    requires
        old(db).wf(),
        0 <= now <= MAX_INSTANT,
    ensures
        final(db).wf(),
        final(db).users_map() == old(db).users_map(),
        final(db).osu_data_map() == old(db).osu_data_map(),
        old(db).profiles_map().contains_key(user_id) ==> {
            &&& r is Ok
            &&& final(db).profiles_map() == old(db).profiles_map().insert(
                user_id,
                (UserProfile {
                    user_id,
                    bio: old(db).profiles_map()[user_id].bio,
                    featured_maps: Some(maps),
                    modified_at: now,
                }),
            )
        },
        !old(db).profiles_map().contains_key(user_id) ==> {
            &&& r == Err::<(), UserError>(UserError::UserNotFound(user_id))
            &&& final(db).profiles_map() == old(db).profiles_map()
        },
{
    match db.profiles.remove(&user_id) {
        Some(row) => {
            db.profiles.insert(
                user_id,
                UserProfile { user_id, bio: row.bio, featured_maps: Some(maps), modified_at: now },
            );
            proof {
                assert(db.profiles_map() =~= old(db).profiles_map().insert(
                    user_id,
                    (UserProfile {
                        user_id,
                        bio: old(db).profiles_map()[user_id].bio,
                        featured_maps: Some(maps),
                        modified_at: now,
                    }),
                ));
            }
            Ok(())
        },
        None => Err(UserError::UserNotFound(user_id)),
    }
}

/// Renames a user, stamping the identity row.
pub fn update_user_name(user_name: &str, user_id: i64, db: &mut PgStore, now: i64) -> (r: Result<
    (),
    UserError,
>)
    requires
        old(db).wf(),
        0 <= now <= MAX_INSTANT,
    ensures
        final(db).wf(),
        final(db).profiles_map() == old(db).profiles_map(),
        final(db).osu_data_map() == old(db).osu_data_map(),
        old(db).users_map().contains_key(user_id) ==> {
            &&& r is Ok
            &&& final(db).users_map().dom() == old(db).users_map().dom()
            &&& final(db).users_map()[user_id].id == user_id
            &&& final(db).users_map()[user_id].user_name@ == user_name@
            &&& final(db).users_map()[user_id].profile_picture@ == old(
                db,
            ).users_map()[user_id].profile_picture@
            &&& final(db).users_map()[user_id].modified_at == now
            &&& (forall|k: i64|
                k != user_id && old(db).users_map().contains_key(k)
                    ==> final(db).users_map()[k] == old(db).users_map()[k])
        },
        !old(db).users_map().contains_key(user_id) ==> {
            &&& r == Err::<(), UserError>(UserError::UserNotFound(user_id))
            &&& final(db).users_map() == old(db).users_map()
        },
{
    match db.users.remove(&user_id) {
        Some(row) => {
            db.users.insert(
                user_id,
                User {
                    id: user_id,
                    user_name: user_name.to_owned(),
                    profile_picture: row.profile_picture,
                    modified_at: now,
                },
            );
            Ok(())
        },
        None => Err(UserError::UserNotFound(user_id)),
    }
}

/// Replaces a user's profile picture, stamping the identity row.
pub fn update_user_picture(user_picture: &str, user_id: i64, db: &mut PgStore, now: i64) -> (r:
    Result<(), UserError>)
    requires
        old(db).wf(),
        0 <= now <= MAX_INSTANT,
    ensures
        final(db).wf(),
        final(db).profiles_map() == old(db).profiles_map(),
        final(db).osu_data_map() == old(db).osu_data_map(),
        old(db).users_map().contains_key(user_id) ==> {
            &&& r is Ok
            &&& final(db).users_map().dom() == old(db).users_map().dom()
            &&& final(db).users_map()[user_id].id == user_id
            &&& final(db).users_map()[user_id].user_name@ == old(
                db,
            ).users_map()[user_id].user_name@
            &&& final(db).users_map()[user_id].profile_picture@ == user_picture@
            &&& final(db).users_map()[user_id].modified_at == now
            &&& (forall|k: i64|
                k != user_id && old(db).users_map().contains_key(k)
                    ==> final(db).users_map()[k] == old(db).users_map()[k])
        },
        !old(db).users_map().contains_key(user_id) ==> {
            &&& r == Err::<(), UserError>(UserError::UserNotFound(user_id))
            &&& final(db).users_map() == old(db).users_map()
        },
{
    match db.users.remove(&user_id) {
        Some(row) => {
            db.users.insert(
                user_id,
                User {
                    id: user_id,
                    user_name: row.user_name,
                    profile_picture: user_picture.to_owned(),
                    modified_at: now,
                },
            );
            Ok(())
        },
        None => Err(UserError::UserNotFound(user_id)),
    }
}

/// Writes a user's biography — or clears it — stamping the profile row.
pub fn update_user_bio(user_bio: Option<&str>, user_id: i64, db: &mut PgStore, now: i64) -> (r:
    Result<(), UserError>)
    requires
        old(db).wf(),
        0 <= now <= MAX_INSTANT,
    ensures
        final(db).wf(),
        final(db).users_map() == old(db).users_map(),
        final(db).osu_data_map() == old(db).osu_data_map(),
        old(db).profiles_map().contains_key(user_id) ==> {
            &&& r is Ok
            &&& final(db).profiles_map().dom() == old(db).profiles_map().dom()
            &&& final(db).profiles_map()[user_id].user_id == user_id
            &&& (match user_bio {
                Some(text) => final(db).profiles_map()[user_id].bio matches Some(stored)
                    && stored@ == text@,
                None => final(db).profiles_map()[user_id].bio is None,
            })
            &&& opt_maps_same(
                final(db).profiles_map()[user_id].featured_maps,
                old(db).profiles_map()[user_id].featured_maps,
            )
            &&& final(db).profiles_map()[user_id].modified_at == now
            &&& (forall|k: i64|
                k != user_id && old(db).profiles_map().contains_key(k)
                    ==> final(db).profiles_map()[k] == old(db).profiles_map()[k])
        },
        !old(db).profiles_map().contains_key(user_id) ==> {
            &&& r == Err::<(), UserError>(UserError::UserNotFound(user_id))
            &&& final(db).profiles_map() == old(db).profiles_map()
        },
{
    match db.profiles.remove(&user_id) {
        Some(row) => {
            let bio: Option<String> = match user_bio {
                Some(text) => Some(text.to_owned()),
                None => None,
            };
            db.profiles.insert(
                user_id,
                UserProfile {
                    user_id,
                    bio,
                    featured_maps: row.featured_maps,
                    modified_at: now,
                },
            );
            Ok(())
        },
        None => Err(UserError::UserNotFound(user_id)),
    }
}

/// The three-way creation is all-or-nothing, and every operation keeps it
/// so: in every reachable store, a user's identity row exists exactly when
/// its profile row and its snapshot row exist — no identity row is ever
/// left dangling without its companions.
pub proof fn lemma_user_row_never_dangling(db: PgStore, user_id: i64)
    requires
        db.wf(),
    ensures
        db.users_map().contains_key(user_id) <==> db.profiles_map().contains_key(user_id),
        db.users_map().contains_key(user_id) <==> db.osu_data_map().contains_key(user_id),
{
}

} // verus!

//! Tests of the reconciliation path: staleness classification, the
//! locked refresh behind a stale read, racing stale reads, lazy
//! materialization plans, and profile updates.

use mapper_influence::api_user::{
    create_user, get_full_user_by_id, get_full_user_handler, get_user_by_id, get_user_handler,
    init_missing_full_user, update_user, update_user_profile_begin, update_user_profile_finish,
    CreateUserRequest, FieldUpdate, FullUserReadStep, UpdateUserRequest, UserReadStep,
};
use mapper_influence::kv::{set_osu_tokens, KvStore};
use mapper_influence::osu_api::user::{BeatmapsetStats, Country, Cover, User as OsuUser};
use mapper_influence::osu_api::OsuApiError;
use mapper_influence::user::{
    get_full_user, get_user, init_user, FullUser, PgStore, User, OUTDATED_AFTER_SECONDS,
};
use mapper_influence::user_lock::{is_user_locked, lock_user, unlock_user};

fn osu_user(id: i64, ranked: i32) -> OsuUser {
    OsuUser {
        avatar_url: "https://a.example/pic.png".to_string(),
        id,
        playmode: "osu".to_string(),
        title: None,
        username: "someone".to_string(),
        country: Country { code: "DE".to_string(), name: "Germany".to_string() },
        cover: Cover { custom_url: None, url: None },
        groups: Vec::new(),
        followers: 0,
        stats: BeatmapsetStats { ranked, loved: 0, nominated: 0, pending: 0, graveyard: 0, guest: 0 },
    }
}

fn full_user_with_snapshot_age(modified_at: i64) -> FullUser {
    FullUser {
        id: 1,
        user_name: "someone".to_string(),
        profile_picture: "pic".to_string(),
        bio: None,
        featured_maps: None,
        ranked_count: 0,
        loved_count: 0,
        nominated_count: 0,
        graveyard_count: 0,
        guest_count: 0,
        osu_data_modified_at: modified_at,
        profile_data_modified_at: modified_at,
    }
}

/// A snapshot exactly three hours old is fresh; one a second older is
/// outdated.
#[test]
fn staleness_threshold() {
    let written_at = 50_000;
    let row = full_user_with_snapshot_age(written_at);
    assert_eq!(OUTDATED_AFTER_SECONDS, 3 * 3600);
    assert!(!row.is_outdated(written_at + OUTDATED_AFTER_SECONDS));
    assert!(row.is_outdated(written_at + OUTDATED_AFTER_SECONDS + 1));
}

/// The refresh lock: taken once, refused while held, free again after
/// release.
#[test]
fn lock_take_and_release() {
    let mut kv = KvStore::new();
    let now = 100;
    assert!(!is_user_locked(42, &kv, now).unwrap());
    assert!(lock_user(42, &mut kv, now).unwrap());
    assert!(is_user_locked(42, &kv, now).unwrap());
    // A second taker within the time-to-live is refused.
    assert!(!lock_user(42, &mut kv, now + 5).unwrap());
    // After the time-to-live the flag no longer counts as held.
    assert!(!is_user_locked(42, &kv, now + 30).unwrap());
    assert!(lock_user(42, &mut kv, now + 30).unwrap());
    unlock_user(42, &mut kv).unwrap();
    assert!(!is_user_locked(42, &kv, now + 31).unwrap());
}

/// An authenticated read of a user whose snapshot is four hours old: the
/// response carries the pre-refresh counts, and one refresh is begun —
/// the lock is set, the fetch applied, the lock cleared.
#[test]
fn stale_read_refreshes_in_background() {
    let mut kv = KvStore::new();
    let mut pg = PgStore::new();
    let t0 = 1_000;
    init_missing_full_user(&osu_user(42, 3), &mut pg, t0).unwrap();
    set_osu_tokens(42, "acc", "ref", &mut kv, t0).unwrap();

    // Four hours later the snapshot is stale.
    let now = t0 + 4 * 3600;
    let step = get_full_user_by_id(42, 42, &mut kv, &pg, now);
    let (served, access_token) = match step {
        FullUserReadStep::DoneWithRefresh { user, access_token } => (user, access_token),
        _ => panic!("a stale read must answer and begin a refresh"),
    };
    // The response carries the counts from before the refresh.
    assert_eq!(served.ranked_count, 3);
    assert_eq!(served.osu_data_modified_at, t0);
    assert_eq!(access_token, "acc");
    // The refresh lock is held while the fetch is in flight.
    assert!(is_user_locked(42, &kv, now).unwrap());

    // The fetch lands: the snapshot is rewritten and the lock cleared.
    update_user_profile_finish(42, Ok(osu_user(42, 9)), &mut kv, &mut pg, now).unwrap();
    assert!(!is_user_locked(42, &kv, now).unwrap());
    let after = get_full_user(42, &pg).unwrap();
    assert_eq!(after.ranked_count, 9);
    assert_eq!(after.osu_data_modified_at, now);
}

/// A refresh whose fetch fails changes no rows and still releases the
/// lock; the read it ran behind already answered.
#[test]
fn failed_refresh_changes_nothing() {
    let mut kv = KvStore::new();
    let mut pg = PgStore::new();
    let t0 = 1_000;
    init_missing_full_user(&osu_user(42, 3), &mut pg, t0).unwrap();
    set_osu_tokens(42, "acc", "ref", &mut kv, t0).unwrap();

    let now = t0 + 4 * 3600;
    match get_full_user_by_id(42, 42, &mut kv, &pg, now) {
        FullUserReadStep::DoneWithRefresh { .. } => {}
        _ => panic!("a stale read must begin a refresh"),
    }
    update_user_profile_finish(
        42,
        Err(OsuApiError::InternalError("timeout".to_string())),
        &mut kv,
        &mut pg,
        now,
    )
    .unwrap();
    assert!(!is_user_locked(42, &kv, now).unwrap());
    let after = get_full_user(42, &pg).unwrap();
    assert_eq!(after.ranked_count, 3);
    assert_eq!(after.osu_data_modified_at, t0);
}

/// Two simultaneous reads of the same stale user: only one begins the
/// refresh; both answer successfully with the stored rows.
#[test]
fn racing_stale_reads_refresh_once() {
    let mut kv = KvStore::new();
    let mut pg = PgStore::new();
    let t0 = 1_000;
    init_missing_full_user(&osu_user(42, 3), &mut pg, t0).unwrap();
    set_osu_tokens(42, "acc", "ref", &mut kv, t0).unwrap();

    let now = t0 + 4 * 3600;
    let first = get_full_user_by_id(42, 42, &mut kv, &pg, now);
    let second = get_full_user_by_id(42, 42, &mut kv, &pg, now);

    let mut fetches: usize = 0;
    for step in [first, second] {
        match step {
            FullUserReadStep::DoneWithRefresh { user, .. } => {
                fetches += 1;
                assert_eq!(user.ranked_count, 3);
            }
            FullUserReadStep::Done(user) => {
                assert_eq!(user.ranked_count, 3);
            }
            _ => panic!("both stale reads must answer successfully"),
        }
    }
    assert_eq!(fetches, 1);
}

/// A fresh snapshot is served without touching the lock.
#[test]
fn fresh_read_does_not_refresh() {
    let mut kv = KvStore::new();
    let mut pg = PgStore::new();
    let t0 = 1_000;
    init_missing_full_user(&osu_user(42, 3), &mut pg, t0).unwrap();
    set_osu_tokens(42, "acc", "ref", &mut kv, t0).unwrap();

    let now = t0 + OUTDATED_AFTER_SECONDS;  // exactly three hours: still fresh
    match get_full_user_handler(42, &mut kv, &pg, now) {
        FullUserReadStep::Done(user) => assert_eq!(user.ranked_count, 3),
        _ => panic!("a fresh read must answer without refreshing"),
    }
    assert!(!is_user_locked(42, &kv, now).unwrap());
}

/// A requester without a live access token cannot refresh: the lock is
/// released at once and the read still answers.
#[test]
fn stale_read_without_token_skips_refresh() {
    let mut kv = KvStore::new();
    let mut pg = PgStore::new();
    let t0 = 1_000;
    init_missing_full_user(&osu_user(42, 3), &mut pg, t0).unwrap();
    // No tokens stored for the requester.
    let now = t0 + 4 * 3600;
    match get_full_user_by_id(42, 42, &mut kv, &pg, now) {
        FullUserReadStep::Done(user) => assert_eq!(user.ranked_count, 3),
        _ => panic!("the read must answer even when the refresh cannot run"),
    }
    assert!(!is_user_locked(42, &kv, now).unwrap());
}

/// The begin step alone: a held lock skips, a free one acquires.
#[test]
fn refresh_begin_respects_lock() {
    let mut kv = KvStore::new();
    let now = 100;
    set_osu_tokens(7, "tok", "ref", &mut kv, now).unwrap();
    assert_eq!(update_user_profile_begin(7, 9, &mut kv, now).as_deref(), Some("tok"));
    // The lock for user nine is now held: a second attempt skips.
    assert_eq!(update_user_profile_begin(7, 9, &mut kv, now), None);
}

/// Reads of a missing user plan materialization with the requester's own
/// token; without a token they fail.
#[test]
fn missing_user_read_plans_fetch() {
    let mut kv = KvStore::new();
    let pg = PgStore::new();
    let now = 100;
    set_osu_tokens(1, "token-of-1", "r", &mut kv, now).unwrap();

    match get_user_handler(1, &kv, &pg, now) {
        UserReadStep::FetchMissing { access_token } => assert_eq!(access_token, "token-of-1"),
        _ => panic!("a missing user must be fetched"),
    }
    match get_user_by_id(1, 42, &kv, &pg, now) {
        UserReadStep::FetchMissing { access_token } => assert_eq!(access_token, "token-of-1"),
        _ => panic!("a missing target must be fetched with the requester's token"),
    }
    match create_user(1, CreateUserRequest { user_id: 42 }, &kv, now) {
        UserReadStep::FetchMissing { access_token } => assert_eq!(access_token, "token-of-1"),
        _ => panic!("creation always fetches"),
    }
    // A requester with no live token cannot materialize anyone.
    match get_user_by_id(2, 42, &kv, &pg, now) {
        UserReadStep::Failed(_) => {}
        _ => panic!("without a token the read must fail"),
    }
}

/// A present user is answered directly.
#[test]
fn present_user_read_answers() {
    let kv = KvStore::new();
    let mut pg = PgStore::new();
    init_user(User::new(5, "name".to_string(), "pic".to_string()), &mut pg, 50).unwrap();
    match get_user_handler(5, &kv, &pg, 100) {
        UserReadStep::Done(user) => {
            assert_eq!(user.id, 5);
            assert_eq!(user.user_name, "name");
        }
        _ => panic!("a present user must be answered directly"),
    }
}

/// Profile updates: each carried field is applied, an omitted biography
/// is left alone, a cleared one is removed, and the first missing-user
/// failure aborts.
#[test]
fn update_user_applies_fields() {
    let mut pg = PgStore::new();
    init_user(User::new(5, "old-name".to_string(), "old-pic".to_string()), &mut pg, 50).unwrap();
    update_user(
        5,
        &UpdateUserRequest {
            user_name: Some("new-name".to_string()),
            profile_picture: None,
            bio: FieldUpdate::Assign("hello".to_string()),
        },
        &mut pg,
        60,
    )
    .unwrap();
    let row = get_full_user(5, &pg).unwrap();
    assert_eq!(row.user_name, "new-name");
    assert_eq!(row.profile_picture, "old-pic");
    assert_eq!(row.bio.as_deref(), Some("hello"));

    // Leaving the biography alone keeps it; clearing removes it.
    update_user(
        5,
        &UpdateUserRequest {
            user_name: None,
            profile_picture: Some("new-pic".to_string()),
            bio: FieldUpdate::Leave,
        },
        &mut pg,
        70,
    )
    .unwrap();
    let row = get_full_user(5, &pg).unwrap();
    assert_eq!(row.profile_picture, "new-pic");
    assert_eq!(row.bio.as_deref(), Some("hello"));

    update_user(
        5,
        &UpdateUserRequest { user_name: None, profile_picture: None, bio: FieldUpdate::Clear },
        &mut pg,
        80,
    )
    .unwrap();
    let row = get_full_user(5, &pg).unwrap();
    assert!(row.bio.is_none());

    // An empty request succeeds even for a user that does not exist.
    update_user(
        99,
        &UpdateUserRequest { user_name: None, profile_picture: None, bio: FieldUpdate::Leave },
        &mut pg,
        90,
    )
    .unwrap();
    // A request that touches anything fails for a missing user.
    assert!(update_user(
        99,
        &UpdateUserRequest {
            user_name: Some("x".to_string()),
            profile_picture: None,
            bio: FieldUpdate::Leave,
        },
        &mut pg,
        90,
    )
    .is_err());
}

/// Materializing a user that appeared in the meantime is absorbed: the
/// row is read back, not re-created.
#[test]
fn materialize_existing_user_reads_back() {
    let mut pg = PgStore::new();
    init_user(User::new(42, "existing".to_string(), "pic".to_string()), &mut pg, 10).unwrap();
    let full = init_missing_full_user(&osu_user(42, 8), &mut pg, 20).unwrap();
    assert_eq!(full.user_name, "existing");
    // The racing creation changed nothing: the snapshot still has its
    // original stamp.
    assert_eq!(full.osu_data_modified_at, 10);
}

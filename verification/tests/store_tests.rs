//! Tests of the relational user store model: creation, updates, absence,
//! and the idempotence and atomicity of materialization.

use mapper_influence::api_user::init_missing_user;
use mapper_influence::osu_api::beatmap::{Beatmap, BeatmapType, Beatmapset, BeatmapsetNames, Covers};
use mapper_influence::osu_api::user::{BeatmapsetStats, Country, Cover, User as OsuUser};
use mapper_influence::user::{
    get_full_user, get_user, init_user, update_user_bio, update_user_featured_maps,
    update_user_name, update_user_picture, FeaturedMaps, Maps, PgStore, User, UserError,
};

fn user_for_test(user_id: i64) -> User {
    User::new(
        user_id,
        "boraarslan".to_string(),
        "random.imageservice.com/boraarslan.jpg".to_string(),
    )
}

fn osu_user_for_test(user_id: i64) -> OsuUser {
    OsuUser {
        avatar_url: "random.imageservice.com/avatar.jpg".to_string(),
        id: user_id,
        playmode: "osu".to_string(),
        title: None,
        username: "boraarslan".to_string(),
        country: Country { code: "TR".to_string(), name: "Turkey".to_string() },
        cover: Cover { custom_url: None, url: None },
        groups: Vec::new(),
        followers: 0,
        stats: BeatmapsetStats { ranked: 4, loved: 1, nominated: 2, pending: 0, graveyard: 7, guest: 3 },
    }
}

#[test]
fn test_insert_user() {
    let mut db = PgStore::new();
    let now = 100;
    // Test user insert
    let user = user_for_test(1i64);
    init_user(user.clone(), &mut db, now).unwrap();
    let db_user = get_user(user.id, &db).unwrap();
    // Initiated user has default timestamp that is not used during database initiation.
    // Therefore asserting them at struct level will never be successful.
    assert_eq!(user.id, db_user.id);
    assert_eq!(user.user_name, db_user.user_name);
    assert_eq!(user.profile_picture, db_user.profile_picture);
    assert_ne!(user.modified_at, db_user.modified_at);
    // Test user insert with duplicate keys
    let user_second = User {
        // Using the key of the previously inserted user for key violation test
        id: 1i64,
        user_name: "fursum".to_string(),
        profile_picture: "random.imageservice.com/fursum.jpg".to_string(),
        modified_at: 0,
    };
    let error = init_user(user_second, &mut db, now).unwrap_err();
    match error {
        UserError::UserAlreadyExists(1) => {}
        _ => panic!("Database should return key violation error on duplicate entries."),
    }
}

#[test]
fn test_update_user() {
    let mut db = PgStore::new();
    let now = 100;
    // Test username update
    let user = user_for_test(1);
    init_user(user.clone(), &mut db, now).unwrap();
    update_user_name("fursum", user.id, &mut db, now).unwrap();
    let db_user = get_user(user.id, &db).unwrap();
    assert_eq!(db_user.user_name, "fursum".to_string());
    assert_eq!(user.profile_picture, db_user.profile_picture);

    // Test profile picture update
    let user = user_for_test(2);
    init_user(user.clone(), &mut db, now).unwrap();
    update_user_picture("random.someothersite.com/bora2.jpeg", user.id, &mut db, now).unwrap();

    let db_user = get_user(user.id, &db).unwrap();
    assert_eq!(
        db_user.profile_picture,
        "random.someothersite.com/bora2.jpeg".to_string()
    );
    assert_eq!(user.user_name, db_user.user_name);

    // Test user bio update
    let user = user_for_test(3);
    init_user(user.clone(), &mut db, now).unwrap();
    update_user_bio(Some("I changed my mind."), user.id, &mut db, now).unwrap();
    let db_user = get_user(user.id, &db).unwrap();
    assert_eq!(user.profile_picture, db_user.profile_picture);
    assert_eq!(user.user_name, db_user.user_name);
}

#[test]
fn test_non_existent() {
    const NOT_FOUND_ERROR_TEXT: &str = "Query against absent users should return NotFound error.";
    let mut db = PgStore::new();
    let now = 100;
    // Test search for non-existent user
    let err = get_user(-100, &db).unwrap_err();
    match err {
        UserError::UserNotFound(-100) => {}
        _ => panic!("{}", NOT_FOUND_ERROR_TEXT),
    }

    // Test username update for non-existent user
    let err = update_user_name("112does_not_matter", -100, &mut db, now).unwrap_err();
    match err {
        UserError::UserNotFound(-100) => {}
        _ => panic!("{}", NOT_FOUND_ERROR_TEXT),
    }

    // Test user bio update for non-existent user
    let err = update_user_bio(None, -100, &mut db, now).unwrap_err();
    match err {
        UserError::UserNotFound(-100) => {}
        _ => panic!("{}", NOT_FOUND_ERROR_TEXT),
    }

    // Test user update for non-existent user
    let err = update_user_picture("does_not_matter.png", -100, &mut db, now).unwrap_err();
    match err {
        UserError::UserNotFound(-100) => {}
        _ => panic!("{}", NOT_FOUND_ERROR_TEXT),
    }
}

/// Materializing the same new user twice: both calls succeed, the second
/// changes nothing, and exactly one row exists.
#[test]
fn materialization_is_idempotent() {
    let mut db = PgStore::new();
    let osu_user = osu_user_for_test(42);
    let first = init_missing_user(&osu_user, &mut db, 100).unwrap();
    let second = init_missing_user(&osu_user, &mut db, 200).unwrap();
    assert_eq!(first.id, 42);
    assert_eq!(second.id, 42);
    assert_eq!(first.user_name, second.user_name);
    assert_eq!(first.modified_at, second.modified_at);
    let row = get_user(42, &db).unwrap();
    // The second call did not restamp the row.
    assert_eq!(row.modified_at, 100);
}

/// The fetched counts land in the snapshot when a user is materialized.
#[test]
fn materialization_writes_counts() {
    let mut db = PgStore::new();
    let osu_user = osu_user_for_test(42);
    init_missing_user(&osu_user, &mut db, 100).unwrap();
    let full = get_full_user(42, &db).unwrap();
    assert_eq!(full.ranked_count, 4);
    assert_eq!(full.loved_count, 1);
    assert_eq!(full.nominated_count, 2);
    assert_eq!(full.graveyard_count, 7);
    assert_eq!(full.guest_count, 3);
    assert_eq!(full.osu_data_modified_at, 100);
    assert!(full.bio.is_none());
    assert!(full.featured_maps.is_none());
}

/// A user row exists exactly when its profile and snapshot rows exist: a
/// refused duplicate creation leaves all three tables untouched, and the
/// join is readable immediately after the single successful creation.
#[test]
fn triplet_insert_is_atomic() {
    let mut db = PgStore::new();
    let user = user_for_test(7);
    init_user(user.clone(), &mut db, 50).unwrap();
    let full = get_full_user(7, &db).unwrap();
    assert_eq!(full.id, 7);
    assert_eq!(full.profile_data_modified_at, 50);
    assert_eq!(full.osu_data_modified_at, 50);

    // A duplicate creation is refused whole: nothing about the stored
    // rows changes.
    let clash = User::new(7, "other".to_string(), "other.png".to_string());
    let err = init_user(clash, &mut db, 60).unwrap_err();
    match err {
        UserError::UserAlreadyExists(7) => {}
        _ => panic!("duplicate creation must be reported as such"),
    }
    let full_after = get_full_user(7, &db).unwrap();
    assert_eq!(full_after.user_name, "boraarslan".to_string());
    assert_eq!(full_after.profile_data_modified_at, 50);
    assert_eq!(full_after.osu_data_modified_at, 50);

    // An id that was never created has no row in any table.
    assert!(get_full_user(8, &db).is_err());
}

/// Featured maps written to a profile are read back entry for entry.
#[test]
fn featured_maps_round_trip() {
    let mut db = PgStore::new();
    init_user(user_for_test(1), &mut db, 10).unwrap();

    let beatmapset = Beatmapset {
        id: 901,
        status: BeatmapType::Ranked,
        creator: "boraarslan".to_string(),
        beatmaps: vec![Beatmap {
            id: 9011,
            url: "https://b.example/9011".to_string(),
            name: "Expert".to_string(),
        }],
        covers: Covers {
            cover: "c".to_string(),
            card: "d".to_string(),
            list: "l".to_string(),
            slimcover: "s".to_string(),
        },
        names: BeatmapsetNames {
            artist: "artist".to_string(),
            artist_unicode: "artist".to_string(),
            title: "title".to_string(),
            title_unicode: "title".to_string(),
        },
    };
    let maps = FeaturedMaps { maps: vec![Maps { beatmapset, featured_map_id: 9011 }] };
    update_user_featured_maps(1, maps, &mut db, 20).unwrap();

    let full = get_full_user(1, &db).unwrap();
    let stored = full.featured_maps.expect("the blob must be stored");
    assert_eq!(stored.maps.len(), 1);
    assert_eq!(stored.maps[0].featured_map_id, 9011);
    assert_eq!(stored.maps[0].beatmapset.id, 901);
    assert_eq!(stored.maps[0].beatmapset.status, BeatmapType::Ranked);
    assert_eq!(stored.maps[0].beatmapset.beatmaps[0].name, "Expert");
    assert_eq!(full.profile_data_modified_at, 20);

    // Writing the blob for an absent user is a distinguishable failure.
    let maps = FeaturedMaps { maps: Vec::new() };
    match update_user_featured_maps(99, maps, &mut db, 20).unwrap_err() {
        UserError::UserNotFound(99) => {}
        _ => panic!("an absent user must be reported as such"),
    }
}

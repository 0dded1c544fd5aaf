//! Tests of the error taxonomy: categories, codes, HTTP statuses,
//! user-safe messages, log severities and the recording flag.

use mapper_influence::core_error::{
    DbErrorObject, DeserializeError, ErrorType, LogLevel, INTERNAL_DB_ERROR_MESSAGE,
    INTERNAL_SERVER_ERROR_MESSAGE,
};
use mapper_influence::db_error;
use mapper_influence::influence::{Influence, InfluenceError};
use mapper_influence::kv::AuthError;
use mapper_influence::leaderboard::{LeaderboardError, LeaderboardUser};
use mapper_influence::osu_api::api_error::{ClientError, Redirect, ServerError};
use mapper_influence::osu_api::beatmap::BeatmapType;
use mapper_influence::osu_api::OsuApiError;
use mapper_influence::result::AppError;
use mapper_influence::session::SessionError;
use mapper_influence::user::UserError;
use mapper_influence::user_lock::LockError;
use mapper_influence::api_influence::{
    InsertInfluenceRequest, UpdateInfluenceLevelRequest,
};
use mapper_influence::influence::classify_influence_insert_error;
use mapper_influence::user::classify_user_insert_error;
use mapper_influence::{PG_FOREIGN_KEY_VIOLATION, PG_UNIQUE_KEY_VIOLATION};

#[test]
fn error_codes_and_categories() {
    assert_eq!(ErrorType::DeserializeError.code(), 100);
    assert_eq!(ErrorType::DatabaseError.code(), 200);
    assert_eq!(ErrorType::HttpClientError.code(), 300);
    assert_eq!(ErrorType::OsuApiError.code(), 400);
    assert_eq!(ErrorType::OsuApiScopeError.code(), 401);
    assert_eq!(ErrorType::AuthorizatonError.code(), 500);
    assert_eq!(ErrorType::BadRequestData.code(), 600);
    assert_eq!(ErrorType::BadRequestSyntax.code(), 601);
    assert_eq!(ErrorType::UnsupportedType.code(), 602);
    assert_eq!(ErrorType::UnableToProcess.code(), 603);
    assert_eq!(ErrorType::DataNotFound.code(), 900);
    assert_eq!(ErrorType::DuplicateEntry.code(), 901);

    assert_eq!(ErrorType::DeserializeError.category(), "InternalParsing");
    assert_eq!(ErrorType::DatabaseError.category(), "Database");
    assert_eq!(ErrorType::AuthorizatonError.category(), "Authorization");
    assert_eq!(ErrorType::DataNotFound.category(), "DataNotFound");
    assert_eq!(ErrorType::DuplicateEntry.category(), "DuplicateEnrty");
    assert_eq!(ErrorType::BadRequestData.category(), "BadRequest");
    assert_eq!(ErrorType::UnableToProcess.category(), "InternalProcessing");
    assert_eq!(ErrorType::OsuApiError.category(), "OsuApi");
    assert_eq!(ErrorType::HttpClientError.category(), "HttpClient");

    assert_eq!(db_error::ErrorType::SerializeError.code(), 100);
    assert_eq!(db_error::ErrorType::SerializeError.category(), "InternalParsing");
}

#[test]
fn http_status_mapping() {
    assert_eq!(ErrorType::AuthorizatonError.http_status(), 401);
    assert_eq!(ErrorType::OsuApiScopeError.http_status(), 401);
    assert_eq!(ErrorType::DataNotFound.http_status(), 404);
    assert_eq!(ErrorType::DuplicateEntry.http_status(), 409);
    assert_eq!(ErrorType::BadRequestData.http_status(), 422);
    assert_eq!(ErrorType::BadRequestSyntax.http_status(), 400);
    assert_eq!(ErrorType::UnsupportedType.http_status(), 415);
    assert_eq!(ErrorType::DatabaseError.http_status(), 500);
    assert_eq!(ErrorType::DeserializeError.http_status(), 500);
    assert_eq!(ErrorType::OsuApiError.http_status(), 500);
    assert_eq!(ErrorType::HttpClientError.http_status(), 500);
    assert_eq!(ErrorType::UnableToProcess.http_status(), 500);
}

/// Every boundary failure maps to its status, message, severity and
/// recording flag by exhaustive matching.
#[test]
fn app_error_responses() {
    let expired = AppError::SessionError(SessionError::SessionExpired);
    let (status, message) = expired.as_response();
    assert_eq!(status, 401);
    assert_eq!(message, "User's session is expired");
    assert_eq!(expired.log_level(), LogLevel::Warn);
    assert!(!expired.should_save());

    let cookie = AppError::SessionError(SessionError::CookieError);
    let (status, message) = cookie.as_response();
    assert_eq!(status, 401);
    assert_eq!(message, "Unable to get session cookie");

    let not_found = AppError::UserError(UserError::UserNotFound(1));
    let (status, message) = not_found.as_response();
    assert_eq!(status, 404);
    assert_eq!(message, "User with id `1` is not found.");
    assert_eq!(not_found.log_level(), LogLevel::Warn);

    let duplicate = AppError::UserError(UserError::UserAlreadyExists(-7));
    let (status, message) = duplicate.as_response();
    assert_eq!(status, 409);
    assert_eq!(message, "User with id `-7` already exists.");

    let scope = AppError::OsuApiError(OsuApiError::PublicScopeError);
    let (status, message) = scope.as_response();
    assert_eq!(status, 401);
    assert_eq!(message, "Missing public scope in access token.");
    assert_eq!(scope.log_level(), LogLevel::Info);

    let transport = AppError::OsuApiError(OsuApiError::InternalError("boom".to_string()));
    let (status, message) = transport.as_response();
    assert_eq!(status, 500);
    assert_eq!(message, INTERNAL_SERVER_ERROR_MESSAGE);
    assert_eq!(transport.log_level(), LogLevel::Error);

    let auth = AppError::AuthError(AuthError::ValueNotFound {
        value: "31".to_string(),
        expected: "access_token",
    });
    let (status, message) = auth.as_response();
    assert_eq!(status, 401);
    assert_eq!(message, "Couldn't authorize the user");

    let pool = AppError::AuthError(AuthError::ConnectionTimedOut);
    let (status, message) = pool.as_response();
    assert_eq!(status, 500);
    assert_eq!(message, INTERNAL_DB_ERROR_MESSAGE);

    let lock = AppError::LockError(LockError::ConnectionTimedOut);
    let (status, message) = lock.as_response();
    assert_eq!(status, 500);
    assert_eq!(message, INTERNAL_DB_ERROR_MESSAGE);
    assert_eq!(lock.log_level(), LogLevel::Error);

    let board = AppError::LeaderboardError(LeaderboardError::DatabaseError("x".to_string()));
    let (status, message) = board.as_response();
    assert_eq!(status, 500);
    assert_eq!(message, "Unable to get leaderboard");

    let influence = AppError::InfluenceError(InfluenceError::InfluenceAlreadyExists(1, 2));
    let (status, _message) = influence.as_response();
    assert_eq!(status, 409);

    assert_eq!(AppError::session_expired().as_response().0, 401);
}

#[test]
fn deserialize_errors_are_recorded() {
    let err = DeserializeError { message: "bad field".to_string(), data: "{}".to_string() };
    assert!(err.should_save());
    assert_eq!(err.user_message(), INTERNAL_SERVER_ERROR_MESSAGE);
    assert_eq!(err.error_type().code(), 100);
    let record: DbErrorObject = err.as_db_error_object();
    assert_eq!(record.message, "bad field");
    assert_eq!(record.data.as_deref(), Some("{}"));
    assert_eq!(record.error_type.code(), 100);
}

#[test]
fn provider_error_messages() {
    assert_eq!(
        ClientError::NotFound.message(),
        "The server can not find the requested resource."
    );
    assert_eq!(
        ServerError::ServiceUnavailable.message(),
        "The server is unavailable to handle requests."
    );
    assert_eq!(
        Redirect::Found.message(),
        "The URL has been changed temporarily."
    );
    assert_eq!(BeatmapType::Graveyard.name(), "graveyard");
    assert_eq!(BeatmapType::Ranked.name(), "ranked");
    assert_eq!(BeatmapType::Nominated.name(), "nominated");
    // Listings exist for four of the six kinds.
    assert!(BeatmapType::Graveyard.listable());
    assert!(BeatmapType::Loved.listable());
    assert!(BeatmapType::Pending.listable());
    assert!(BeatmapType::Ranked.listable());
    assert!(!BeatmapType::Guest.listable());
    assert!(!BeatmapType::Nominated.listable());
}

#[test]
fn influence_requests_validate_levels() {
    let fine = InsertInfluenceRequest { from_id: 1, level: 9, info: Some("Some text".to_string()) };
    assert!(fine.validate());
    let low = InsertInfluenceRequest { from_id: 1, level: 0, info: None };
    assert!(!low.validate());
    let high = UpdateInfluenceLevelRequest { from_id: 1, level: 10 };
    assert!(!high.validate());
    let edge = UpdateInfluenceLevelRequest { from_id: 1, level: 1 };
    assert!(edge.validate());

    let influence = Influence::new(1, 2, 3, Some("Some info".to_string()));
    assert_eq!(influence.from_id, 1);
    assert_eq!(influence.to_id, 2);
    assert_eq!(influence.influence_level, 3);
    assert_eq!(influence.info.as_deref(), Some("Some info"));
}

#[test]
fn leaderboard_row_shape() {
    let row = LeaderboardUser {
        id: 3,
        user_name: "name".to_string(),
        profile_picture: "pic".to_string(),
        ranked_map_count: 12,
        influence_count: Some(4),
    };
    assert_eq!(row.ranked_map_count, 12);
    assert_eq!(row.influence_count, Some(4));
}

/// The store's violation codes classify into the error taxonomy exactly
/// as the insert paths require.
#[test]
fn insert_violations_classify() {
    assert_eq!(PG_UNIQUE_KEY_VIOLATION, "23505");
    assert_eq!(PG_FOREIGN_KEY_VIOLATION, "23503");

    match classify_influence_insert_error("23505", 1, 2, "m".to_string()) {
        InfluenceError::InfluenceAlreadyExists(1, 2) => {}
        _ => panic!("Should return unique_key_violation error."),
    }
    match classify_influence_insert_error("23503", 1, 2, "m".to_string()) {
        InfluenceError::UserDoesNotExist(1, 2) => {}
        _ => panic!("Should return foreign_key_violation error."),
    }
    match classify_influence_insert_error("40001", 1, 2, "serialization".to_string()) {
        InfluenceError::DatabaseError(m) => assert_eq!(m, "serialization"),
        _ => panic!("other codes are internal store failures"),
    }

    match classify_user_insert_error("23505", 7, "m".to_string()) {
        UserError::UserAlreadyExists(7) => {}
        _ => panic!("Should return unique_key_violation error."),
    }
    match classify_user_insert_error("57014", 7, "cancelled".to_string()) {
        UserError::DatabaseError(m) => assert_eq!(m, "cancelled"),
        _ => panic!("other codes are internal store failures"),
    }
}

//! Tests of the login flow: callback validation, the scope check on real
//! token text, and the full path from a fresh code to a live session.

use mapper_influence::api_auth::{
    login, login_on_exchange, login_on_principal, login_start, LoginDecision, LoginRedirect,
    LoginStep, OsuAuthResponseParams,
};
use mapper_influence::kv::KvStore;
use mapper_influence::osu_api::auth::{check_scope, scopes_contain_public, AuthRequest,
    AuthResponseBody};
use mapper_influence::osu_api::authentication::AuthRequestBuilder;
use mapper_influence::osu_api::user::{BeatmapsetStats, Country, Cover, User as OsuUser};
use mapper_influence::osu_api::OsuApiError;
use mapper_influence::result::AppError;
use mapper_influence::session::{auth_user, CookieJar, SessionError};
use mapper_influence::state::TokenSource;
use mapper_influence::user::{get_user, PgStore};

/// A token whose claims carry the public and identify scopes.
const TOKEN_WITH_PUBLIC: &str =
    "eyJhbGciOiJIUzI1NiIsInR5cCI6IkpXVCJ9.eyJzY29wZXMiOlsicHVibGljIiwiaWRlbnRpZnkiXX0.sig";

/// A token whose claims carry only the identify scope.
const TOKEN_WITHOUT_PUBLIC: &str =
    "eyJhbGciOiJIUzI1NiIsInR5cCI6IkpXVCJ9.eyJzY29wZXMiOlsiaWRlbnRpZnkiXX0.sig";

/// A token whose claims carry no scope list at all.
const TOKEN_WITHOUT_SCOPES: &str =
    "eyJhbGciOiJIUzI1NiIsInR5cCI6IkpXVCJ9.eyJzdWIiOiI0MiJ9.sig";

fn principal_42() -> OsuUser {
    OsuUser {
        avatar_url: "https://a.example/42.png".to_string(),
        id: 42,
        playmode: "osu".to_string(),
        title: None,
        username: "mapper42".to_string(),
        country: Country { code: "TR".to_string(), name: "Turkey".to_string() },
        cover: Cover { custom_url: None, url: None },
        groups: Vec::new(),
        followers: 3,
        stats: BeatmapsetStats { ranked: 1, loved: 0, nominated: 0, pending: 2, graveyard: 5, guest: 0 },
    }
}

fn tokens_with(access: &str) -> AuthResponseBody {
    AuthResponseBody {
        token_type: "Bearer".to_string(),
        expires_in: 86400,
        access_token: access.to_string(),
        refresh_token: "refresh-token-value".to_string(),
    }
}

#[test]
fn scope_check_on_real_tokens() {
    assert!(check_scope(TOKEN_WITH_PUBLIC).is_ok());
    match check_scope(TOKEN_WITHOUT_PUBLIC).unwrap_err() {
        OsuApiError::PublicScopeError => {}
        _ => panic!("a token without the public scope must be refused as such"),
    }
    match check_scope(TOKEN_WITHOUT_SCOPES).unwrap_err() {
        OsuApiError::JwtParseError(_) => {}
        _ => panic!("claims without a scope list must count as undecodable"),
    }
    match check_scope("not-a-token").unwrap_err() {
        OsuApiError::JwtParseError(_) => {}
        _ => panic!("garbage must count as undecodable"),
    }
}

#[test]
fn scope_list_check() {
    let with: Vec<String> = vec!["identify".to_string(), "public".to_string()];
    let without: Vec<String> = vec!["identify".to_string()];
    let empty: Vec<String> = Vec::new();
    assert!(scopes_contain_public(&with));
    assert!(!scopes_contain_public(&without));
    assert!(!scopes_contain_public(&empty));
}

#[test]
fn callback_validation() {
    // A provider-reported error aborts the attempt.
    let failed = OsuAuthResponseParams {
        code: Some("abc123".to_string()),
        error: Some("access_denied".to_string()),
    };
    match login_start(failed).unwrap_err() {
        AppError::SessionError(SessionError::OsuAuthError(m)) => assert_eq!(m, "access_denied"),
        _ => panic!("a provider error must abort the attempt"),
    }

    // No code at all aborts too.
    let empty = OsuAuthResponseParams { code: None, error: None };
    match login_start(empty).unwrap_err() {
        AppError::SessionError(SessionError::OsuAuthError(m)) => {
            assert_eq!(m, "No code provided")
        }
        _ => panic!("a missing code must abort the attempt"),
    }

    // A clean callback hands the code on to the exchange.
    let fine = OsuAuthResponseParams { code: Some("abc123".to_string()), error: None };
    match login_start(fine).unwrap() {
        LoginStep::NeedExchange { code } => assert_eq!(code, "abc123"),
        _ => panic!("a clean callback must proceed to the exchange"),
    }
}

/// A fresh login with a valid code: the session cookie is set, the local
/// user is created with the provider's reported name and avatar, and the
/// client is sent home.
#[test]
fn fresh_login_creates_user_and_session() {
    let mut rng = TokenSource::new();
    let mut kv = KvStore::new();
    let mut pg = PgStore::new();
    let mut cookies = CookieJar { session: None };
    let now = 10_000;

    let step = login_start(OsuAuthResponseParams { code: Some("abc123".to_string()), error: None })
        .unwrap();
    let code = match step {
        LoginStep::NeedExchange { code } => code,
        _ => panic!("expected the exchange step"),
    };
    assert_eq!(code, "abc123");

    // The provider accepts the code and answers with tokens in scope.
    let step = login_on_exchange(Ok(tokens_with(TOKEN_WITH_PUBLIC))).unwrap();
    let tokens = match step {
        LoginStep::NeedPrincipal { tokens } => tokens,
        _ => panic!("expected the principal step"),
    };

    let principal = principal_42();
    let step =
        login_on_principal(&principal, &tokens, &mut rng, &mut kv, &mut pg, &mut cookies, now)
            .unwrap();
    match step {
        LoginStep::Finished { redirect } => assert_eq!(redirect, LoginRedirect::Home),
        _ => panic!("the attempt must finish"),
    }

    // The cookie resolves to the principal.
    assert!(cookies.session.is_some());
    assert_eq!(auth_user(&cookies, &kv, now).unwrap(), 42);

    // The local user was created with the provider's reported data.
    let row = get_user(42, &pg).unwrap();
    assert_eq!(row.user_name, "mapper42");
    assert_eq!(row.profile_picture, "https://a.example/42.png");

    // A later login request with this cookie goes straight home.
    assert_eq!(login(&cookies, &kv, now), LoginDecision::AlreadyAuthenticated);
}

/// A login whose token lacks the public scope: the client is sent to the
/// failure destination, no session is issued and no local user appears.
#[test]
fn login_without_public_scope_fails_cleanly() {
    let kv = KvStore::new();
    let pg = PgStore::new();
    let now = 10_000;

    let step = login_on_exchange(Ok(tokens_with(TOKEN_WITHOUT_PUBLIC))).unwrap();
    match step {
        LoginStep::Finished { redirect } => assert_eq!(redirect, LoginRedirect::AuthFailed),
        _ => panic!("a missing scope must end the attempt with the failure redirect"),
    }

    // Nothing was issued and nothing was created.
    let cookies = CookieJar { session: None };
    assert!(auth_user(&cookies, &kv, now).is_err());
    assert!(get_user(42, &pg).is_err());
}

/// The provider reporting the scope failure itself is routed the same way.
#[test]
fn provider_scope_refusal_routes_to_failure() {
    let step = login_on_exchange(Err(OsuApiError::PublicScopeError)).unwrap();
    match step {
        LoginStep::Finished { redirect } => assert_eq!(redirect, LoginRedirect::AuthFailed),
        _ => panic!("the provider's scope refusal must route to the failure redirect"),
    }
    // Any other provider failure aborts the attempt as an error.
    assert!(login_on_exchange(Err(OsuApiError::InternalError("timeout".to_string()))).is_err());
}

/// An unauthenticated request to the login page is sent to the provider.
#[test]
fn login_page_without_session_begins_authorization() {
    let kv = KvStore::new();
    let cookies = CookieJar { session: None };
    assert_eq!(login(&cookies, &kv, 0), LoginDecision::BeginAuthorization);
}

#[test]
fn token_request_bodies() {
    let access = AuthRequest::access("abc123".to_string(), "cid", "SECRET-REDACTED", "https://cb");
    assert_eq!(access.grant_type, "authorization_code");
    assert_eq!(access.scope, "public, identify");
    assert_eq!(access.code.as_deref(), Some("abc123"));
    assert!(access.refresh_token.is_none());

    let refresh = AuthRequest::refresh("r-token".to_string(), "cid", "SECRET-REDACTED", "https://cb");
    assert_eq!(refresh.grant_type, "refresh_token");
    assert!(refresh.code.is_none());
    assert_eq!(refresh.refresh_token.as_deref(), Some("r-token"));

    let builder = AuthRequestBuilder::new(
        "cid".to_string(),
        "SECRET-REDACTED".to_string(),
        "https://cb".to_string(),
    );
    let body = builder.request_body("abc123".to_string());
    assert_eq!(body.grant_type, "authorization_code");
    assert_eq!(body.code.as_deref(), Some("abc123"));
    assert!(body.refresh_token.is_none());
    let body = builder.refresh_body("r-token".to_string());
    assert_eq!(body.grant_type, "refresh_token");
    assert!(body.code.is_none());
    assert_eq!(body.refresh_token.as_deref(), Some("r-token"));
}

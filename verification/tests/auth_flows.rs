use plexo_core::auth::{
    github_exchange_check, github_session_reply, github_sign_in_handler,
    login_member_check, login_password_check, logout, logout_handler, register_creation_check,
    register_lookup_check, register_member_input, select_token, session_reply,
};
use plexo_core::errors::PlexoAppError;
use plexo_core::github::{github_member_input, github_profile, GithubUser, JsonField};
use plexo_core::members::Lookup;
use plexo_core::reply::{no_cache_headers, ReplyBody};
use plexo_core::session::{cleared_session_cookie, session_cookie, SameSite};

const NOW: i64 = 1_700_000_000;
const WEEK: i64 = 7 * 86_400;

fn error_text(body: &ReplyBody) -> Option<&str> {
    match body {
        ReplyBody::ErrorMessage(m) => Some(m.as_str()),
        _ => None,
    }
}

#[test]
fn session_cookie_lasts_seven_days() {
    let c = session_cookie("tok".to_string(), NOW);
    assert_eq!(c.name, "__Host-plexo-session-token");
    assert_eq!(c.value, "tok");
    assert!(c.http_only && c.secure);
    assert_eq!(c.same_site, SameSite::Lax);
    assert_eq!(c.expires_at, NOW + WEEK);
    assert_eq!(c.path, "/");
}

#[test]
fn cleared_cookie_expired_a_day_ago() {
    let c = cleared_session_cookie(NOW);
    assert_eq!(c.name, "__Host-plexo-session-token");
    assert_eq!(c.value, "");
    assert!(c.http_only && c.secure);
    assert_eq!(c.same_site, SameSite::Strict);
    assert_eq!(c.expires_at, NOW - 86_400);
    assert_eq!(c.path, "/");
}

#[test]
fn header_token_wins_over_cookie() {
    let t = select_token(Some("h".to_string()), Some("c".to_string()));
    assert_eq!(t.ok().unwrap(), "h");
    let t = select_token(None, Some("c".to_string()));
    assert_eq!(t.ok().unwrap(), "c");
    let t = select_token(None, None);
    assert!(matches!(t, Err(PlexoAppError::NotFoundPoemError)));
}

#[test]
fn login_unknown_member_is_refused() {
    let r = login_member_check(Lookup::Absent).err().unwrap();
    assert_eq!(r.status, 401);
    assert_eq!(error_text(&r.body), Some("Member not found"));
    assert!(r.cookie.is_none());
    let r = login_member_check(Lookup::Failed).err().unwrap();
    assert_eq!(r.status, 401);
    assert_eq!(error_text(&r.body), Some("Member not found"));
}

#[test]
fn login_member_without_password_is_refused() {
    let r = login_member_check(Lookup::Found(None)).err().unwrap();
    assert_eq!(r.status, 401);
    assert_eq!(error_text(&r.body), Some("Invalid password"));
}

#[test]
fn login_goes_on_with_the_stored_hash() {
    let h = login_member_check(Lookup::Found(Some("$argon2$abc".to_string())));
    assert_eq!(h.ok().unwrap(), "$argon2$abc");
}

#[test]
fn login_wrong_password_is_refused() {
    assert!(login_password_check(true).is_none());
    let r = login_password_check(false).unwrap();
    assert_eq!(r.status, 401);
    assert_eq!(error_text(&r.body), Some("Invalid password"));
    assert!(r.cookie.is_none());
}

#[test]
fn login_success_sets_cookie_and_returns_token() {
    let r = session_reply(Some("jwt.token.value".to_string()), NOW);
    assert_eq!(r.status, 200);
    assert!(r.location.is_none());
    assert!(!r.no_cache);
    let c = r.cookie.unwrap();
    assert_eq!(c.value, "jwt.token.value");
    assert_eq!(c.expires_at, NOW + WEEK);
    assert!(matches!(r.body, ReplyBody::AccessToken(ref t) if t == "jwt.token.value"));
}

#[test]
fn token_failure_is_internal_error() {
    let r = session_reply(None, NOW);
    assert_eq!(r.status, 500);
    assert!(r.cookie.is_none());
    assert!(matches!(r.body, ReplyBody::GraphQLError(ref m) if m == "Internal Server Error"));
}

#[test]
fn register_existing_lookup_is_refused() {
    let r = register_lookup_check(true).unwrap();
    assert_eq!(r.status, 401);
    assert_eq!(error_text(&r.body), Some("Member already exists"));
    assert!(register_lookup_check(false).is_none());
}

#[test]
fn register_creation_failure_is_internal_error() {
    assert!(register_creation_check(true).is_none());
    let r = register_creation_check(false).unwrap();
    assert_eq!(r.status, 500);
    assert!(matches!(r.body, ReplyBody::GraphQLError(ref m) if m == "Internal Server Error"));
}

#[test]
fn register_member_has_default_role() {
    let m = register_member_input("a@b.c".to_string(), "Ann".to_string(), "hash".to_string());
    assert_eq!(m.email, "a@b.c");
    assert_eq!(m.name, "Ann");
    assert_eq!(m.password_hash, "hash");
    assert!(m.role.is_none());
    assert!(m.photo_url.is_none());
}

#[test]
fn sign_in_redirects_to_github() {
    let r = github_sign_in_handler(Some("https://github.com/login/oauth/authorize?x=1".to_string()));
    assert_eq!(r.status, 307);
    assert_eq!(r.location.as_deref(), Some("https://github.com/login/oauth/authorize?x=1"));
    assert!(matches!(r.body, ReplyBody::Empty));
    let r = github_sign_in_handler(None);
    assert_eq!(r.status, 500);
    assert!(matches!(r.body, ReplyBody::GraphQLError(ref m) if m == "Internal Server Error (github)"));
}

#[test]
fn github_exchange_failure_is_reported() {
    assert_eq!(github_exchange_check(Ok("gho_x".to_string())).ok().unwrap(), "gho_x");
    let r = github_exchange_check(Err("{\"Err\":\"bad code\"}".to_string())).err().unwrap();
    assert_eq!(r.status, 500);
    assert!(matches!(r.body, ReplyBody::ExchangeFailure(ref f) if f == "{\"Err\":\"bad code\"}"));
}

#[test]
fn github_profile_reads_fields() {
    let p = github_profile(GithubUser {
        id: Some(583231),
        email: JsonField::Text("octo@github.com".to_string()),
        name: JsonField::Text("The Octocat".to_string()),
    });
    assert_eq!(p.github_id, "583231");
    assert_eq!(p.email, "octo@github.com");
    assert_eq!(p.name, "The Octocat");
}

#[test]
fn github_profile_falls_back_to_id() {
    let p = github_profile(GithubUser { id: Some(42), email: JsonField::Other, name: JsonField::Other });
    assert_eq!(p.github_id, "42");
    assert_eq!(p.email, "42@no-email.github.com");
    assert_eq!(p.name, "42");
    let m = github_member_input(p);
    assert_eq!(m.github_id, "42");
    assert_eq!(m.email, "42@no-email.github.com");
    assert!(m.photo_url.is_none());
}

#[test]
fn github_callback_success_redirects_home() {
    let r = github_session_reply(Some("tok".to_string()), NOW);
    assert_eq!(r.status, 302);
    assert_eq!(r.location.as_deref(), Some("/"));
    assert!(r.no_cache);
    assert_eq!(r.cookie.unwrap().expires_at, NOW + WEEK);
    assert!(matches!(r.body, ReplyBody::Empty));
    let r = github_session_reply(None, NOW);
    assert_eq!(r.status, 500);
}

#[test]
fn logout_redirects_and_clears() {
    let r = logout(NOW);
    assert_eq!(r.status, 301);
    assert_eq!(r.location.as_deref(), Some("/"));
    assert!(r.no_cache);
    let c = r.cookie.unwrap();
    assert_eq!(c.value, "");
    assert!(c.expires_at < NOW);
}

#[test]
fn logout_api_returns_empty_token() {
    let r = logout_handler(NOW);
    assert_eq!(r.status, 200);
    assert!(!r.no_cache);
    assert_eq!(r.cookie.unwrap().expires_at, NOW - 86_400);
    assert!(matches!(r.body, ReplyBody::AccessToken(ref t) if t.is_empty()));
}

#[test]
fn no_cache_header_values() {
    assert_eq!(
        no_cache_headers(),
        vec![
            ("Cache-Control", "no-cache, no-store, must-revalidate"),
            ("Pragma", "no-cache"),
            ("Expires", "0")
        ]
    );
}

use plexo_core::auth::{logout, logout_handler, session_reply};
use plexo_core::flows::{
    github_step, login_step, register_step, GithubAction, GithubEvent, GithubState, LoginAction, LoginEvent,
    LoginState, RegisterAction, RegisterEvent, RegisterState,
};
use plexo_core::github::{GithubUser, JsonField};
use plexo_core::members::{Lookup, LoginMember};
use uuid::Uuid;
use plexo_core::reply::ReplyBody;
use plexo_core::session::COOKIE_SESSION_TOKEN_NAME;

const NOW: i64 = 1_700_000_000;

fn member(id: u128, hash: Option<&str>) -> LoginMember {
    LoginMember { id: Uuid::from_u128(id), password_hash: hash.map(|h| h.to_string()) }
}

#[test]
fn login_machine_successful_run() {
    let (s, a) = login_step(
        LoginState::AwaitingMember,
        LoginEvent::MemberLookedUp(Lookup::Found(member(4, Some("hash")))),
        NOW,
    );
    assert!(matches!(s, LoginState::AwaitingPasswordCheck(id) if id == Uuid::from_u128(4)));
    assert!(matches!(a, LoginAction::CheckPassword(ref h) if h == "hash"));
    let (s, a) = login_step(s, LoginEvent::PasswordChecked(true), NOW);
    assert!(matches!(s, LoginState::AwaitingToken(_)));
    assert!(matches!(a, LoginAction::MakeToken(id) if id == Uuid::from_u128(4)));
    let (s, a) = login_step(s, LoginEvent::TokenMade(Some("tok".to_string())), NOW);
    assert!(matches!(s, LoginState::Finished));
    let LoginAction::Answer(reply) = a else { panic!("expected an answer") };
    assert_eq!(reply.status, 200);
    assert_eq!(reply.cookie.unwrap().name, COOKIE_SESSION_TOKEN_NAME);
}

#[test]
fn login_machine_refuses_wrong_password() {
    let (s, _) = login_step(
        LoginState::AwaitingMember,
        LoginEvent::MemberLookedUp(Lookup::Found(member(4, Some("hash")))),
        NOW,
    );
    let (s, a) = login_step(s, LoginEvent::PasswordChecked(false), NOW);
    assert!(matches!(s, LoginState::Finished));
    let LoginAction::Answer(reply) = a else { panic!("expected an answer") };
    assert_eq!(reply.status, 401);
    assert!(reply.cookie.is_none());
}

#[test]
fn login_machine_refuses_unknown_member() {
    let (s, a) = login_step(LoginState::AwaitingMember, LoginEvent::MemberLookedUp(Lookup::Absent), NOW);
    assert!(matches!(s, LoginState::Finished));
    let LoginAction::Answer(reply) = a else { panic!("expected an answer") };
    assert_eq!(reply.status, 401);
    assert!(matches!(reply.body, ReplyBody::ErrorMessage(ref m) if m == "Member not found"));
}

#[test]
fn register_machine_runs() {
    let (s, a) = register_step(RegisterState::AwaitingLookup, RegisterEvent::LookedUp(true), NOW);
    assert!(matches!(s, RegisterState::Finished));
    assert!(matches!(a, RegisterAction::Answer(ref r) if r.status == 401));

    let (s, a) = register_step(RegisterState::AwaitingLookup, RegisterEvent::LookedUp(false), NOW);
    assert!(matches!(s, RegisterState::AwaitingCreation));
    assert!(matches!(a, RegisterAction::CreateMember));
    let (s, a) = register_step(s, RegisterEvent::MemberCreated(Some(Uuid::from_u128(6))), NOW);
    assert!(matches!(s, RegisterState::AwaitingToken(_)));
    assert!(matches!(a, RegisterAction::MakeToken(id) if id == Uuid::from_u128(6)));
    let (s, a) = register_step(s, RegisterEvent::TokenMade(Some("tok".to_string())), NOW);
    assert!(matches!(s, RegisterState::Finished));
    assert!(matches!(a, RegisterAction::Answer(ref r) if r.status == 200 && r.cookie.is_some()));

    let (_, a) = register_step(RegisterState::AwaitingCreation, RegisterEvent::MemberCreated(None), NOW);
    assert!(matches!(a, RegisterAction::Answer(ref r) if r.status == 500));
}

#[test]
fn github_machine_creates_missing_member() {
    let (s, a) = github_step(GithubState::AwaitingExchange, GithubEvent::Exchanged(Ok("gho".to_string())), NOW);
    assert!(matches!(s, GithubState::AwaitingUser));
    assert!(matches!(a, GithubAction::FetchUser(ref t) if t == "gho"));
    let user = GithubUser { id: Some(7), email: JsonField::Other, name: JsonField::Text("Seven".to_string()) };
    let (s, a) = github_step(s, GithubEvent::UserFetched(user), NOW);
    assert!(matches!(s, GithubState::AwaitingMember(_)));
    assert!(matches!(a, GithubAction::LookUpMember(ref id) if id == "7"));
    let (s, a) = github_step(s, GithubEvent::MemberLookedUp(Lookup::Failed), NOW);
    assert!(matches!(s, GithubState::AwaitingNewMember));
    let GithubAction::CreateMember(m) = a else { panic!("expected a creation") };
    assert_eq!(m.github_id, "7");
    assert_eq!(m.email, "7@no-email.github.com");
    assert_eq!(m.name, "Seven");
    let (s, a) = github_step(s, GithubEvent::MemberCreated(Uuid::from_u128(12)), NOW);
    assert!(matches!(s, GithubState::AwaitingToken(_)));
    assert!(matches!(a, GithubAction::MakeToken(id) if id == Uuid::from_u128(12)));
    let (s, a) = github_step(s, GithubEvent::TokenMade(Some("tok".to_string())), NOW);
    assert!(matches!(s, GithubState::Finished));
    let GithubAction::Answer(reply) = a else { panic!("expected an answer") };
    assert_eq!(reply.status, 302);
    assert_eq!(reply.location.as_deref(), Some("/"));
}

#[test]
fn github_machine_known_member_and_failed_exchange() {
    let user = GithubUser {
        id: Some(8),
        email: JsonField::Text("e@x.io".to_string()),
        name: JsonField::Text("E".to_string()),
    };
    let (s, _) = github_step(GithubState::AwaitingUser, GithubEvent::UserFetched(user), NOW);
    let (s, a) = github_step(s, GithubEvent::MemberLookedUp(Lookup::Found(Uuid::from_u128(13))), NOW);
    assert!(matches!(s, GithubState::AwaitingToken(_)));
    assert!(matches!(a, GithubAction::MakeToken(id) if id == Uuid::from_u128(13)));

    let (s, a) = github_step(GithubState::AwaitingExchange, GithubEvent::Exchanged(Err("{}".to_string())), NOW);
    assert!(matches!(s, GithubState::Finished));
    assert!(matches!(a, GithubAction::Answer(ref r) if r.status == 500 && r.cookie.is_none()));
}

#[test]
fn logout_discards_session_cookie() {
    let session = session_reply(Some("tok".to_string()), NOW).cookie.unwrap();
    let later = NOW + 3_600;
    for reply in [logout(later), logout_handler(later)] {
        let c = reply.cookie.unwrap();
        assert_eq!(c.name, session.name);
        assert_eq!(c.path, session.path);
        assert_eq!(c.value, "");
        assert_eq!(c.expires_at, later - 86_400);
        assert!(c.expires_at < later);
    }
}

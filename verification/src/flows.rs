use vstd::prelude::*;

use crate::auth::{
    exchange_rule, github_exchange_check, github_session_reply, github_session_rule, login_member_check,
    login_member_rule, login_password_check, password_rule, register_creation_check, register_creation_rule,
    register_lookup_check, register_lookup_rule, session_reply, session_rule,
};
use crate::github::{
    github_member_input, github_profile, new_member_rule, profile_rule, readable_user, GithubProfile, GithubUser,
    NewGithubMemberView, ProfileView,
};
use crate::members::{Lookup, LoginMember, NewGithubMember};
use crate::reply::{text_of, Reply, ReplyView};
use crate::session::can_issue_at;
use uuid::Uuid;

verus! {

// ---------------------------------------------------------------------------
// Email login
// ---------------------------------------------------------------------------

/// Where an email login stands; past the lookup it holds the member's id.
#[derive(Clone, Copy, Debug)]
pub enum LoginState {
    AwaitingMember,
    AwaitingPasswordCheck(Uuid),
    AwaitingToken(Uuid),
    Finished,
}

/// What the outside world answered to the login's last action.
pub enum LoginEvent {
    /// The lookup of the member by email.
    MemberLookedUp(Lookup<LoginMember>),
    /// Whether the password matched the hash.
    PasswordChecked(bool),
    /// The session token, when one could be made.
    TokenMade(Option<String>),
}

/// What the login asks for next.
pub enum LoginAction {
    /// Check the password against this hash.
    CheckPassword(String),
    /// Make a session token for the member with this id.
    MakeToken(Uuid),
    /// Answer the request; the login is over.
    Answer(Reply),
}

/// A login action as values.
pub enum LoginActionView {
    CheckPassword(Seq<char>),
    MakeToken(Uuid),
    Answer(ReplyView),
}

impl View for LoginAction {
    type V = LoginActionView;

    open spec fn view(&self) -> LoginActionView {
        match self {
            LoginAction::CheckPassword(h) => LoginActionView::CheckPassword(h@),
            LoginAction::MakeToken(id) => LoginActionView::MakeToken(*id),
            LoginAction::Answer(r) => LoginActionView::Answer(r@),
        }
    }
}

/// The password hashes that a member lookup yields.
pub open spec fn hashes_of(lookup: Lookup<LoginMember>) -> Lookup<Option<String>> {
    match lookup {
        Lookup::Found(member) => Lookup::Found(member.password_hash),
        Lookup::Absent => Lookup::Absent,
        Lookup::Failed => Lookup::Failed,
    }
}

/// The event that each state of the login waits for.
pub open spec fn login_event_fits(state: LoginState, event: LoginEvent) -> bool {
    match event {
        LoginEvent::MemberLookedUp(_) => state is AwaitingMember,
        LoginEvent::PasswordChecked(_) => state is AwaitingPasswordCheck,
        LoginEvent::TokenMade(_) => state is AwaitingToken,
    }
}

/// One step of an email login: the member must exist and have a password, the
/// password must match, then a session token is made for that member and the
/// answer sent.
pub open spec fn login_transition(state: LoginState, event: LoginEvent, now: int) -> (
    LoginState,
    LoginActionView,
) {
    match event {
        LoginEvent::MemberLookedUp(lookup) => match login_member_rule(hashes_of(lookup)) {
            Err(refusal) => (LoginState::Finished, LoginActionView::Answer(refusal)),
            Ok(hash) => (
                LoginState::AwaitingPasswordCheck(lookup->Found_0.id),
                LoginActionView::CheckPassword(hash),
            ),
        },
        LoginEvent::PasswordChecked(matches) => match password_rule(matches) {
            Some(refusal) => (LoginState::Finished, LoginActionView::Answer(refusal)),
            None => (
                LoginState::AwaitingToken(state->AwaitingPasswordCheck_0),
                LoginActionView::MakeToken(state->AwaitingPasswordCheck_0),
            ),
        },
        LoginEvent::TokenMade(token) => (
            LoginState::Finished,
            LoginActionView::Answer(session_rule(text_of(token), now)),
        ),
    }
}

/// Takes one step of an email login.
pub fn login_step(state: LoginState, event: LoginEvent, now: i64) -> (next: (LoginState, LoginAction))
    requires
        login_event_fits(state, event),
        event matches LoginEvent::TokenMade(Some(_)) ==> can_issue_at(now),
    ensures
        (next.0, next.1@) == login_transition(state, event, now as int),
{
    match event {
        LoginEvent::MemberLookedUp(lookup) => {
            let (hashes, id) = match lookup {
                Lookup::Found(member) => (Lookup::Found(member.password_hash), Some(member.id)),
                Lookup::Absent => (Lookup::Absent, None),
                Lookup::Failed => (Lookup::Failed, None),
            };
            match login_member_check(hashes) {
                Err(refusal) => (LoginState::Finished, LoginAction::Answer(refusal)),
                Ok(hash) => match id {
                    Some(id) => (LoginState::AwaitingPasswordCheck(id), LoginAction::CheckPassword(hash)),
                    // Not reached: only a found member has a hash.
                    None => (LoginState::Finished, LoginAction::CheckPassword(hash)),
                },
            }
        },
        LoginEvent::PasswordChecked(matches) => match login_password_check(matches) {
            Some(refusal) => (LoginState::Finished, LoginAction::Answer(refusal)),
            None => match state {
                LoginState::AwaitingPasswordCheck(id) => (LoginState::AwaitingToken(id), LoginAction::MakeToken(id)),
                // Not reached: a password check only fits a state that waits for one.
                _ => (LoginState::Finished, LoginAction::CheckPassword(String::new())),
            },
        },
        LoginEvent::TokenMade(token) => (LoginState::Finished, LoginAction::Answer(session_reply(token, now))),
    }
}

/// The answer of a whole login run, given what each outside step answered.
/// Steps after an answer are not taken, so their answers do not matter.
pub open spec fn login_run(
    lookup: Lookup<LoginMember>,
    password_matches: bool,
    token: Option<String>,
    now: int,
) -> ReplyView {
    let (s1, a1) = login_transition(LoginState::AwaitingMember, LoginEvent::MemberLookedUp(lookup), now);
    match a1 {
        LoginActionView::Answer(reply) => reply,
        _ => {
            let (s2, a2) = login_transition(s1, LoginEvent::PasswordChecked(password_matches), now);
            match a2 {
                LoginActionView::Answer(reply) => reply,
                _ => match login_transition(s2, LoginEvent::TokenMade(token), now).1 {
                    LoginActionView::Answer(reply) => reply,
                    _ => arbitrary(),
                },
            }
        },
    }
}

// ---------------------------------------------------------------------------
// Email registration
// ---------------------------------------------------------------------------

/// Where an email registration stands; once the member exists it holds its id.
#[derive(Clone, Copy, Debug)]
pub enum RegisterState {
    AwaitingLookup,
    AwaitingCreation,
    AwaitingToken(Uuid),
    Finished,
}

/// What the outside world answered to the registration's last action.
pub enum RegisterEvent {
    /// Whether looking the email up succeeded (found or not).
    LookedUp(bool),
    /// The id of the member created, or none when it could not be created.
    MemberCreated(Option<Uuid>),
    /// The session token, when one could be made.
    TokenMade(Option<String>),
}

/// What the registration asks for next.
pub enum RegisterAction {
    /// Create the member with the registration's email, name and password hash.
    CreateMember,
    /// Make a session token for the member with this id.
    MakeToken(Uuid),
    /// Answer the request; the registration is over.
    Answer(Reply),
}

/// A registration action as values.
pub enum RegisterActionView {
    CreateMember,
    MakeToken(Uuid),
    Answer(ReplyView),
}

impl View for RegisterAction {
    type V = RegisterActionView;

    open spec fn view(&self) -> RegisterActionView {
        match self {
            RegisterAction::CreateMember => RegisterActionView::CreateMember,
            RegisterAction::MakeToken(id) => RegisterActionView::MakeToken(*id),
            RegisterAction::Answer(r) => RegisterActionView::Answer(r@),
        }
    }
}

/// The event that each state of the registration waits for.
pub open spec fn register_event_fits(state: RegisterState, event: RegisterEvent) -> bool {
    match event {
        RegisterEvent::LookedUp(_) => state is AwaitingLookup,
        RegisterEvent::MemberCreated(_) => state is AwaitingCreation,
        RegisterEvent::TokenMade(_) => state is AwaitingToken,
    }
}

/// One step of an email registration.
pub open spec fn register_transition(event: RegisterEvent, now: int) -> (RegisterState, RegisterActionView) {
    match event {
        RegisterEvent::LookedUp(succeeded) => match register_lookup_rule(succeeded) {
            Some(refusal) => (RegisterState::Finished, RegisterActionView::Answer(refusal)),
            None => (RegisterState::AwaitingCreation, RegisterActionView::CreateMember),
        },
        RegisterEvent::MemberCreated(created) => match register_creation_rule(created is Some) {
            Some(failure) => (RegisterState::Finished, RegisterActionView::Answer(failure)),
            None => (RegisterState::AwaitingToken(created->0), RegisterActionView::MakeToken(created->0)),
        },
        RegisterEvent::TokenMade(token) => (
            RegisterState::Finished,
            RegisterActionView::Answer(session_rule(text_of(token), now)),
        ),
    }
}

/// Takes one step of an email registration.
pub fn register_step(state: RegisterState, event: RegisterEvent, now: i64) -> (next: (
    RegisterState,
    RegisterAction,
))
    requires
        register_event_fits(state, event),
        event matches RegisterEvent::TokenMade(Some(_)) ==> can_issue_at(now),
    ensures
        (next.0, next.1@) == register_transition(event, now as int),
{
    match event {
        RegisterEvent::LookedUp(succeeded) => match register_lookup_check(succeeded) {
            Some(refusal) => (RegisterState::Finished, RegisterAction::Answer(refusal)),
            None => (RegisterState::AwaitingCreation, RegisterAction::CreateMember),
        },
        RegisterEvent::MemberCreated(created) => match register_creation_check(created.is_some()) {
            Some(failure) => (RegisterState::Finished, RegisterAction::Answer(failure)),
            None => match created {
                Some(id) => (RegisterState::AwaitingToken(id), RegisterAction::MakeToken(id)),
                // Not reached: a created member has an id.
                None => (RegisterState::Finished, RegisterAction::CreateMember),
            },
        },
        RegisterEvent::TokenMade(token) => (
            RegisterState::Finished,
            RegisterAction::Answer(session_reply(token, now)),
        ),
    }
}

/// The answer of a whole registration run, given what each outside step answered.
pub open spec fn register_run(lookup_succeeded: bool, created: Option<Uuid>, token: Option<String>, now: int) -> ReplyView {
    match register_transition(RegisterEvent::LookedUp(lookup_succeeded), now).1 {
        RegisterActionView::Answer(reply) => reply,
        _ => match register_transition(RegisterEvent::MemberCreated(created), now).1 {
            RegisterActionView::Answer(reply) => reply,
            _ => match register_transition(RegisterEvent::TokenMade(token), now).1 {
                RegisterActionView::Answer(reply) => reply,
                _ => arbitrary(),
            },
        },
    }
}

// ---------------------------------------------------------------------------
// GitHub sign-in callback
// ---------------------------------------------------------------------------

/// Where a GitHub callback stands.
pub enum GithubState {
    AwaitingExchange,
    AwaitingUser,
    /// Waiting for the lookup of the member with this profile's GitHub id.
    AwaitingMember(GithubProfile),
    AwaitingNewMember,
    /// Waiting for the session token of the member with this id.
    AwaitingToken(Uuid),
    Finished,
}

/// A callback state as values.
pub enum GithubStateView {
    AwaitingExchange,
    AwaitingUser,
    AwaitingMember(ProfileView),
    AwaitingNewMember,
    AwaitingToken(Uuid),
    Finished,
}

impl View for GithubState {
    type V = GithubStateView;

    open spec fn view(&self) -> GithubStateView {
        match self {
            GithubState::AwaitingExchange => GithubStateView::AwaitingExchange,
            GithubState::AwaitingUser => GithubStateView::AwaitingUser,
            GithubState::AwaitingMember(p) => GithubStateView::AwaitingMember(p@),
            GithubState::AwaitingNewMember => GithubStateView::AwaitingNewMember,
            GithubState::AwaitingToken(id) => GithubStateView::AwaitingToken(*id),
            GithubState::Finished => GithubStateView::Finished,
        }
    }
}

/// What the outside world answered to the callback's last action.
pub enum GithubEvent {
    /// The exchange of the authorization code: the access token, or the
    /// failed result already serialized.
    Exchanged(Result<String, String>),
    /// The user that GitHub describes for that access token.
    UserFetched(GithubUser),
    /// The lookup of the member by GitHub id; holds the id of the member found.
    MemberLookedUp(Lookup<Uuid>),
    /// The new member was created with this id.
    MemberCreated(Uuid),
    /// The session token, when one could be made.
    TokenMade(Option<String>),
}

/// What the callback asks for next.
pub enum GithubAction {
    /// Fetch the GitHub user with this access token.
    FetchUser(String),
    /// Look the member up by this GitHub id.
    LookUpMember(String),
    /// Create this member.
    CreateMember(NewGithubMember),
    /// Make a session token for the member with this id.
    MakeToken(Uuid),
    /// Answer the request; the callback is over.
    Answer(Reply),
}

/// A callback action as values.
pub enum GithubActionView {
    FetchUser(Seq<char>),
    LookUpMember(Seq<char>),
    CreateMember(NewGithubMemberView),
    MakeToken(Uuid),
    Answer(ReplyView),
}

impl View for GithubAction {
    type V = GithubActionView;

    open spec fn view(&self) -> GithubActionView {
        match self {
            GithubAction::FetchUser(t) => GithubActionView::FetchUser(t@),
            GithubAction::LookUpMember(id) => GithubActionView::LookUpMember(id@),
            GithubAction::CreateMember(m) => GithubActionView::CreateMember(m@),
            GithubAction::MakeToken(id) => GithubActionView::MakeToken(*id),
            GithubAction::Answer(r) => GithubActionView::Answer(r@),
        }
    }
}

/// The event that each state of the callback waits for, and that a fetched
/// user can be read (its id an integer, its email and name present).
pub open spec fn github_event_fits(state: GithubStateView, event: GithubEvent) -> bool {
    match event {
        GithubEvent::Exchanged(_) => state == GithubStateView::AwaitingExchange,
        GithubEvent::UserFetched(user) => state == GithubStateView::AwaitingUser && readable_user(user),
        GithubEvent::MemberLookedUp(_) => state is AwaitingMember,
        GithubEvent::MemberCreated(_) => state == GithubStateView::AwaitingNewMember,
        GithubEvent::TokenMade(_) => state is AwaitingToken,
    }
}

/// One step of a GitHub callback: exchange the code, read the user, find the
/// member by GitHub id or create one (a failed lookup also creates one), make
/// a session token and answer.
pub open spec fn github_transition(state: GithubStateView, event: GithubEvent, now: int) -> (
    GithubStateView,
    GithubActionView,
) {
    match event {
        GithubEvent::Exchanged(exchange) => match exchange_rule(exchange) {
            Err(failure) => (GithubStateView::Finished, GithubActionView::Answer(failure)),
            Ok(access_token) => (GithubStateView::AwaitingUser, GithubActionView::FetchUser(access_token)),
        },
        GithubEvent::UserFetched(user) => {
            let profile = profile_rule(user);
            (GithubStateView::AwaitingMember(profile), GithubActionView::LookUpMember(profile.github_id))
        },
        GithubEvent::MemberLookedUp(lookup) => match lookup {
            Lookup::Found(id) => (GithubStateView::AwaitingToken(id), GithubActionView::MakeToken(id)),
            _ => (
                GithubStateView::AwaitingNewMember,
                GithubActionView::CreateMember(new_member_rule(state->AwaitingMember_0)),
            ),
        },
        GithubEvent::MemberCreated(id) => (GithubStateView::AwaitingToken(id), GithubActionView::MakeToken(id)),
        GithubEvent::TokenMade(token) => (
            GithubStateView::Finished,
            GithubActionView::Answer(github_session_rule(text_of(token), now)),
        ),
    }
}

/// Takes one step of a GitHub callback.
pub fn github_step(state: GithubState, event: GithubEvent, now: i64) -> (next: (GithubState, GithubAction))
    requires
        github_event_fits(state@, event),
        event matches GithubEvent::TokenMade(Some(_)) ==> can_issue_at(now),
    ensures
        (next.0@, next.1@) == github_transition(state@, event, now as int),
{
    match event {
        GithubEvent::Exchanged(exchange) => match github_exchange_check(exchange) {
            Err(failure) => (GithubState::Finished, GithubAction::Answer(failure)),
            Ok(access_token) => (GithubState::AwaitingUser, GithubAction::FetchUser(access_token)),
        },
        GithubEvent::UserFetched(user) => {
            let profile = github_profile(user);
            let github_id = profile.github_id.clone();
            (GithubState::AwaitingMember(profile), GithubAction::LookUpMember(github_id))
        },
        GithubEvent::MemberLookedUp(lookup) => match lookup {
            Lookup::Found(id) => (GithubState::AwaitingToken(id), GithubAction::MakeToken(id)),
            _ => match state {
                GithubState::AwaitingMember(profile) => (
                    GithubState::AwaitingNewMember,
                    GithubAction::CreateMember(github_member_input(profile)),
                ),
                // Not reached: a lookup only fits a state that waits for one.
                _ => (GithubState::Finished, GithubAction::FetchUser(String::new())),
            },
        },
        GithubEvent::MemberCreated(id) => (GithubState::AwaitingToken(id), GithubAction::MakeToken(id)),
        GithubEvent::TokenMade(token) => (
            GithubState::Finished,
            GithubAction::Answer(github_session_reply(token, now)),
        ),
    }
}

} // verus!

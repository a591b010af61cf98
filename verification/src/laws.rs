use vstd::prelude::*;

use crate::auth::{
    github_session_rule, login_flow, logout_api_rule, logout_rule, register_flow, session_rule,
};
use crate::flows::{
    github_transition, hashes_of, login_event_fits, login_run, login_transition, register_run, register_transition,
    GithubActionView, GithubEvent, GithubStateView, LoginActionView, LoginEvent, LoginState, RegisterEvent,
    RegisterState,
};
use crate::reply::text_of;
use crate::session::session_cookie_name;
use crate::auth::{login_member_rule, password_rule, sign_in_rule};
use crate::github::{GithubUser, NewGithubMemberView, ProfileView};
use crate::graphql::{
    owned_asset, owned_project, owned_task, owned_team, task_change, ChangeDiff, ChangeOperation,
    ChangeResourceType,
};
use crate::inputs::{CreateAssetInput, CreateProjectInput, CreateTeamInput};
use crate::reply::{ReplyView};
use crate::auth::{
    exchange_rule, register_creation_rule, register_lookup_rule, token_rule,
};
use crate::decimal::{int_decimal, nat_decimal};
use crate::errors::{app_error_status, PlexoAppError, SDKError, SDKErrorExtended};
use crate::github::{profile_rule, readable_user, JsonField};
use crate::graphql::{context_rule, first_ten, ContextFailure};
use crate::headers::{bearer_rule, cookie_value_from, lemma_pair_end_bounds, pair_end, skip_spaces};
use crate::inputs::CreateTaskInput;
use crate::members::{Lookup, LoginMember};
use crate::reply::BodyView;
use crate::session::{cleared_cookie, issued_cookie, SameSite};
use crate::startup::{admin_created, admin_lookup_rule, AdminLookupStep};
use uuid::Uuid;

verus! {

/// An email login opens a session exactly when the member exists, has a
/// password, the password matches and a session token was made; the session
/// cookie and the access token in the body then carry that same token. Every
/// refused login is answered 401 and opens no session.
pub proof fn lemma_login_session_needs_matching_password(
    lookup: Lookup<Option<String>>,
    password_matches: bool,
    token: Option<Seq<char>>,
    now: int,
)
    ensures
        ({
            let reply = login_flow(lookup, password_matches, token, now);
            &&& reply.cookie is Some <==> (lookup matches Lookup::Found(Some(_)) && password_matches
                && token is Some)
            &&& reply.cookie is Some ==> reply.status == 200 && reply.cookie == Some(
                issued_cookie(token.unwrap(), now),
            ) && reply.body == BodyView::AccessToken(token.unwrap())
            &&& !(lookup matches Lookup::Found(Some(_)) && password_matches) ==> reply.status == 401
                && reply.cookie is None
        }),
{
}

/// Registration never opens a session for an email whose lookup succeeded; it
/// opens one exactly when the lookup failed, the member was created and a
/// session token was made.
pub proof fn lemma_register_session_needs_new_member(
    lookup_succeeded: bool,
    created: bool,
    token: Option<Seq<char>>,
    now: int,
)
    ensures
        ({
            let reply = register_flow(lookup_succeeded, created, token, now);
            &&& lookup_succeeded ==> reply.status == 401 && reply.cookie is None
            &&& reply.cookie is Some <==> (!lookup_succeeded && created && token is Some)
        }),
{
}

/// Logging out at time `t`, from the browser or through the API, discards any
/// session cookie that an email login, a registration or a GitHub sign-in set:
/// the logout cookie has the session cookie's name and path, an empty value,
/// and expires one day before `t`, so a client holding the session cookie
/// drops it.
pub proof fn lemma_logout_discards_session_cookie(token: Seq<char>, issued_at: int, t: int)
    ensures
        ({
            let by_email = session_rule(Some(token), issued_at).cookie.unwrap();
            let by_github = github_session_rule(Some(token), issued_at).cookie.unwrap();
            let logout = logout_rule(t).cookie.unwrap();
            let logout_api = logout_api_rule(t).cookie.unwrap();
            &&& by_email.name == session_cookie_name() && by_github.name == session_cookie_name()
            &&& by_email.path == "/"@ && by_github.path == "/"@
            &&& logout.name == by_email.name && logout_api.name == by_email.name
            &&& logout.path == by_email.path && logout_api.path == by_email.path
            &&& logout.value.len() == 0 && logout_api.value.len() == 0
            &&& logout.expires_at == t - 86_400 && logout_api.expires_at == t - 86_400
            &&& logout.expires_at < t && logout_api.expires_at < t
        }),
{
}

/// The login machine answers every run as the login flow prescribes.
pub proof fn lemma_login_machine_follows_flow(
    lookup: Lookup<LoginMember>,
    password_matches: bool,
    token: Option<String>,
    now: int,
)
    ensures
        login_run(lookup, password_matches, token, now) == login_flow(
            hashes_of(lookup),
            password_matches,
            text_of(token),
            now,
        ),
{
}

/// The login machine checks a password only for a member found with one,
/// remembers that member, and makes a session token only after the password
/// matched, and only for that member.
pub proof fn lemma_login_machine_order(state: LoginState, event: LoginEvent, now: int)
    requires
        login_event_fits(state, event),
    ensures
        ({
            let (next, action) = login_transition(state, event, now);
            &&& ((next is AwaitingPasswordCheck) ==> (event matches LoginEvent::MemberLookedUp(
                Lookup::Found(member),
            ) && member.password_hash is Some && next == LoginState::AwaitingPasswordCheck(member.id)))
            &&& ((next is AwaitingToken) ==> (event matches LoginEvent::PasswordChecked(true)))
            &&& (action matches LoginActionView::MakeToken(id) ==> (event matches LoginEvent::PasswordChecked(true)
                && state == LoginState::AwaitingPasswordCheck(id)))
            &&& ((action is Answer) <==> (next is Finished))
        }),
{
}

/// The registration machine answers every run as the registration flow prescribes.
pub proof fn lemma_register_machine_follows_flow(
    lookup_succeeded: bool,
    created: Option<Uuid>,
    token: Option<String>,
    now: int,
)
    ensures
        register_run(lookup_succeeded, created, token, now) == register_flow(
            lookup_succeeded,
            created is Some,
            text_of(token),
            now,
        ),
{
}

/// The registration machine creates a member only after the email lookup
/// failed, and makes a session token only after the member was created, for
/// that member.
pub proof fn lemma_register_machine_order(event: RegisterEvent, now: int)
    ensures
        ({
            let (next, action) = register_transition(event, now);
            &&& ((next is AwaitingCreation) ==> (event matches RegisterEvent::LookedUp(false)))
            &&& (action matches crate::flows::RegisterActionView::MakeToken(id) ==> (event matches RegisterEvent::MemberCreated(
                Some(created),
            ) && created == id))
            &&& ((action is Answer) <==> (next is Finished))
        }),
{
}

/// The GitHub callback fetches the user only after the code exchange
/// succeeded, looks the member up by the id read from that user, makes a
/// session token only for the member found or created, and sets a session
/// cookie only when answering with a token, by a redirect home.
pub proof fn lemma_github_machine_order(state: GithubStateView, event: GithubEvent, now: int)
    ensures
        ({
            let (next, action) = github_transition(state, event, now);
            &&& (next == GithubStateView::AwaitingUser ==> (event matches GithubEvent::Exchanged(Ok(_))))
            &&& ((next is AwaitingMember) ==> (event is UserFetched))
            &&& (action matches GithubActionView::MakeToken(id) ==> ((event matches GithubEvent::MemberLookedUp(
                Lookup::Found(found),
            ) && found == id) || (event matches GithubEvent::MemberCreated(created) && created == id)))
            &&& ((action is CreateMember) ==> ((event is MemberLookedUp) && !(event matches GithubEvent::MemberLookedUp(
                Lookup::Found(_),
            ))))
            &&& (action matches GithubActionView::Answer(reply) ==> (reply.cookie is Some ==> ((event matches GithubEvent::TokenMade(
                Some(_),
            )) && reply.status == 302 && reply.location == Some("/"@))))
            &&& ((action is Answer) <==> next == GithubStateView::Finished)
        }),
{
}

/// A task created on a member's behalf and the change recorded for it belong
/// to the same member, and the change is about that task.
pub proof fn lemma_created_task_and_change_agree(input: CreateTaskInput, member_id: Uuid, task_id: Uuid)
    ensures
        owned_task(input, member_id).owner_id == task_change(
            member_id,
            task_id,
            ChangeOperation::Insert,
        ).owner_id,
        task_change(member_id, task_id, ChangeOperation::Insert).resource_id == task_id,
{
}

/// Start-up creates the default admin only when the lookup of its email found
/// nothing (and did not fail) and no member exists at all.
pub proof fn lemma_admin_created_only_when_no_members<T>(lookup: Lookup<T>, members_exist: bool)
    ensures
        admin_created(lookup, members_exist) <==> (lookup is Absent && !members_exist),
{
}

/// Starting a GitHub sign-in sends the browser, by a temporary redirect, to
/// exactly the authorization URL that was made, with no cookie and no body;
/// without a URL it fails on the server.
pub proof fn lemma_sign_in_redirects_to_the_url(url: Seq<char>)
    ensures
        sign_in_rule(Some(url)).status == 307,
        sign_in_rule(Some(url)).location == Some(url),
        sign_in_rule(Some(url)).cookie is None,
        sign_in_rule(Some(url)).body == BodyView::Empty,
        sign_in_rule(None).status == 500,
        sign_in_rule(None).location is None,
        sign_in_rule(None).cookie is None,
{
}

/// When no member has the GitHub id, whether the lookup found none or failed,
/// the callback creates one from the profile read from GitHub: the profile's
/// GitHub id, name and email, without a photo.
pub proof fn lemma_github_creates_unknown_member(profile: ProfileView, lookup: Lookup<Uuid>, now: int)
    requires
        !(lookup is Found),
    ensures
        github_transition(GithubStateView::AwaitingMember(profile), GithubEvent::MemberLookedUp(lookup), now)
            == (
            GithubStateView::AwaitingNewMember,
            GithubActionView::CreateMember(
                NewGithubMemberView {
                    github_id: profile.github_id,
                    name: profile.name,
                    email: profile.email,
                    photo_url: None,
                },
            ),
        ),
{
}

/// A GitHub sign-in whose code exchange, user fetch and session token succeed
/// always ends with a redirect home that sets the session cookie to that
/// token; the member is the one found by GitHub id, or else (also when the
/// lookup fails) one created for it.
pub proof fn lemma_github_sign_in_succeeds(
    access_token: String,
    user: GithubUser,
    lookup: Lookup<Uuid>,
    created: Uuid,
    token: String,
    now: int,
)
    ensures
        ({
            let (s1, a1) = github_transition(GithubStateView::AwaitingExchange, GithubEvent::Exchanged(Ok(access_token)), now);
            let (s2, a2) = github_transition(s1, GithubEvent::UserFetched(user), now);
            let (s3, a3) = github_transition(s2, GithubEvent::MemberLookedUp(lookup), now);
            let (s4, a4) = match lookup {
                Lookup::Found(_) => (s3, a3),
                _ => github_transition(s3, GithubEvent::MemberCreated(created), now),
            };
            let member = match lookup {
                Lookup::Found(id) => id,
                _ => created,
            };
            let (s5, a5) = github_transition(s4, GithubEvent::TokenMade(Some(token)), now);
            let p = profile_rule(user);
            &&& a1 == GithubActionView::FetchUser(access_token@)
            &&& s2 == GithubStateView::AwaitingMember(p)
            &&& a2 == GithubActionView::LookUpMember(p.github_id)
            &&& (!(lookup is Found) ==> a3 == GithubActionView::CreateMember(
                NewGithubMemberView { github_id: p.github_id, name: p.name, email: p.email, photo_url: None },
            ))
            &&& a4 == GithubActionView::MakeToken(member)
            &&& s4 == GithubStateView::AwaitingToken(member)
            &&& s5 == GithubStateView::Finished
            &&& a5 matches GithubActionView::Answer(reply) && reply.status == 302 && reply.location == Some("/"@)
                && reply.no_cache && (reply.cookie matches Some(c) && c.value == token@ && c.name
                == session_cookie_name() && c.secure && c.http_only && c.path == "/"@
                && c.expires_at == now + 7 * 86_400)
        }),
{
}

/// A task creation request is sent on with the sender as owner and every other
/// field as it came.
pub proof fn lemma_task_request_changes_owner_only(input: CreateTaskInput, member_id: Uuid)
    ensures
        ({
            let owned = owned_task(input, member_id);
            &&& owned.owner_id == member_id
            &&& owned.title == input.title
            &&& owned.status == input.status
            &&& owned.priority == input.priority
            &&& owned.description == input.description
            &&& owned.due_date == input.due_date
            &&& owned.project_id == input.project_id
            &&& owned.lead_id == input.lead_id
            &&& owned.parent_id == input.parent_id
            &&& owned.labels == input.labels
            &&& owned.assignees == input.assignees
            &&& owned.subtasks == input.subtasks
            &&& owned.assets == input.assets
        }),
{
}

/// An asset creation request is sent on with the sender as owner and every
/// other field as it came.
pub proof fn lemma_asset_request_changes_owner_only(input: CreateAssetInput, member_id: Uuid)
    ensures
        ({
            let owned = owned_asset(input, member_id);
            &&& owned.owner_id == member_id
            &&& owned.name == input.name
            &&& owned.kind == input.kind
            &&& owned.project_id == input.project_id
        }),
{
}

/// A team creation request is sent on with the sender as owner and every
/// other field as it came.
pub proof fn lemma_team_request_changes_owner_only(input: CreateTeamInput, member_id: Uuid)
    ensures
        ({
            let owned = owned_team(input, member_id);
            &&& owned.owner_id == member_id
            &&& owned.name == input.name
            &&& owned.visibility == input.visibility
            &&& owned.prefix == input.prefix
            &&& owned.members == input.members
            &&& owned.projects == input.projects
        }),
{
}

/// A project creation request is sent on with the sender as owner and every
/// other field as it came.
pub proof fn lemma_project_request_changes_owner_only(input: CreateProjectInput, member_id: Uuid)
    ensures
        ({
            let owned = owned_project(input, member_id);
            &&& owned.owner_id == member_id
            &&& owned.name == input.name
            &&& owned.status == input.status
            &&& owned.visibility == input.visibility
            &&& owned.prefix == input.prefix
            &&& owned.description == input.description
            &&& owned.lead_id == input.lead_id
            &&& owned.start_date == input.start_date
            &&& owned.due_date == input.due_date
            &&& owned.members == input.members
            &&& owned.teams == input.teams
        }),
{
}

/// Each task change is recorded for the given owner and task, as a change of a
/// task, with the operation done; creations and updates record the request and
/// the result, and only deletions record the result alone.
pub proof fn lemma_task_changes_record_what_happened(owner_id: Uuid, task_id: Uuid)
    ensures
        task_change(owner_id, task_id, ChangeOperation::Insert).diff == ChangeDiff::InputAndResult,
        task_change(owner_id, task_id, ChangeOperation::Update).diff == ChangeDiff::InputAndResult,
        task_change(owner_id, task_id, ChangeOperation::Delete).diff == ChangeDiff::ResultOnly,
        forall|op: ChangeOperation|
            {
                let c = #[trigger] task_change(owner_id, task_id, op);
                &&& c.owner_id == owner_id
                &&& c.resource_id == task_id
                &&& c.operation == op
                &&& c.resource_type == ChangeResourceType::Tasks
            },
{
}

/// Both logouts answer with a cookie that a browser takes in place of the
/// session cookie and then drops: the session cookie's name and path, secure
/// and server-only like it, empty, and already expired.
pub proof fn lemma_logout_cookie_is_accepted_and_expired(token: Seq<char>, issued_at: int, t: int)
    ensures
        ({
            let issued = issued_cookie(token, issued_at);
            let by_browser = logout_rule(t);
            let by_api = logout_api_rule(t);
            &&& issued.secure && issued.http_only
            &&& by_browser.status == 301 && by_browser.location == Some("/"@) && by_browser.no_cache
            &&& by_api.status == 200
            &&& by_browser.cookie matches Some(c) && c.name == issued.name && c.path == issued.path
                && c.secure && c.http_only && c.value.len() == 0 && c.expires_at < t
                && c.same_site == SameSite::Strict
            &&& by_api.cookie matches Some(c) && c.name == issued.name && c.path == issued.path
                && c.secure && c.http_only && c.value.len() == 0 && c.expires_at < t
                && c.same_site == SameSite::Strict
        }),
{
}

/// The refusals of an email login: an unknown member (or a failed lookup) is
/// "Member not found", a member without a password or a wrong password is
/// "Invalid password"; each is a 401 without a cookie.
pub proof fn lemma_login_refusals(hash: Option<String>)
    ensures
        login_member_rule(Lookup::Absent) == Err::<Seq<char>, ReplyView>(crate::reply::error_reply(401, "Member not found"@)),
        login_member_rule(Lookup::Failed) == Err::<Seq<char>, ReplyView>(crate::reply::error_reply(401, "Member not found"@)),
        login_member_rule(Lookup::Found(None)) == Err::<Seq<char>, ReplyView>(crate::reply::error_reply(401, "Invalid password"@)),
        hash matches Some(h) ==> login_member_rule(Lookup::Found(hash)) == Ok::<Seq<char>, ReplyView>(h@),
        password_rule(false) == Some(crate::reply::error_reply(401, "Invalid password"@)),
        password_rule(true) is None,
        crate::reply::error_reply(401, "Invalid password"@).cookie is None,
        crate::reply::error_reply(401, "Invalid password"@).status == 401,
{
}

/// A session cookie issued with `token` at `now` is the `__Host-` session
/// cookie for the whole site, secure and server-only, same-site `Lax`, holding
/// the token and valid for seven days; the cookie that clears it is empty,
/// same-site `Strict`, and expired one day before.
pub proof fn lemma_session_cookie_attributes(token: Seq<char>, now: int)
    ensures
        issued_cookie(token, now).name == "__Host-plexo-session-token"@,
        issued_cookie(token, now).value == token,
        issued_cookie(token, now).http_only && issued_cookie(token, now).secure,
        issued_cookie(token, now).same_site == SameSite::Lax,
        issued_cookie(token, now).expires_at == now + 604_800,
        issued_cookie(token, now).path == "/"@,
        cleared_cookie(now).name == "__Host-plexo-session-token"@,
        cleared_cookie(now).value == Seq::<char>::empty(),
        cleared_cookie(now).http_only && cleared_cookie(now).secure,
        cleared_cookie(now).same_site == SameSite::Strict,
        cleared_cookie(now).expires_at == now - 86_400,
        cleared_cookie(now).path == "/"@,
{
}

/// How the sign-in endpoints fail: a registration for an email whose lookup
/// succeeded is refused 401 "Member already exists"; a member that could not
/// be created, or a session token that could not be made, is a server error
/// "Internal Server Error"; a failed GitHub code exchange is a server error
/// carrying the failed result. None of these sets a cookie.
pub proof fn lemma_sign_in_failures(failure: String, now: int)
    ensures
        register_lookup_rule(true) == Some(crate::reply::error_reply(401, "Member already exists"@)),
        register_lookup_rule(false) is None,
        register_creation_rule(false) matches Some(r) && r.status == 500 && r.cookie is None
            && r.body == BodyView::GraphQLError("Internal Server Error"@),
        register_creation_rule(true) is None,
        session_rule(None, now).status == 500 && session_rule(None, now).cookie is None,
        session_rule(None, now).body == BodyView::GraphQLError("Internal Server Error"@),
        github_session_rule(None, now).status == 500 && github_session_rule(None, now).cookie is None,
        github_session_rule(None, now).body == BodyView::GraphQLError("Internal Server Error"@),
        exchange_rule(Err(failure)) matches Err(r) && r.status == 500 && r.cookie is None
            && r.body == BodyView::ExchangeFailure(failure@),
{
}

/// A successful email login or registration answers 200 with the session
/// cookie and the same token in the body.
pub proof fn lemma_session_reply_carries_token(token: Seq<char>, now: int)
    ensures
        session_rule(Some(token), now).status == 200,
        session_rule(Some(token), now).cookie == Some(issued_cookie(token, now)),
        session_rule(Some(token), now).body == BodyView::AccessToken(token),
        session_rule(Some(token), now).location is None,
{
}

/// A request's token is the one in its headers when there is one, else the one
/// in its session cookie, else none.
pub proof fn lemma_header_token_wins(from_headers: String, from_cookie: Option<String>)
    ensures
        token_rule(Some(from_headers), from_cookie) == Some(from_headers@),
        from_cookie matches Some(c) ==> token_rule(None, from_cookie) == Some(c@),
        token_rule(None, None) is None,
{
}

/// The token of an `Authorization` header is what follows `Bearer `, and a
/// header has one only when it starts with `Bearer `.
pub proof fn lemma_bearer_token(value: Seq<char>, token: Seq<char>)
    ensures
        bearer_rule("Bearer "@ + token) == Some(token),
        bearer_rule(value) matches Some(t) ==> value == "Bearer "@ + t,
{
    reveal_strlit("Bearer ");
    assert(("Bearer "@ + token).take(7) =~= "Bearer "@);
    assert(("Bearer "@ + token).skip(7) =~= token);
    if bearer_rule(value) is Some {
        assert(value =~= value.take(7) + value.skip(7));
    }
}

/// A GraphQL request runs for the member that its token's claims name, and only
/// when a token is present and the core is available.
pub proof fn lemma_request_member(token_found: bool, core_found: bool, claims_member: Option<Uuid>)
    ensures
        context_rule(token_found, core_found, claims_member) matches Ok(m) ==> (token_found && core_found
            && claims_member == Some(m)),
        !token_found ==> context_rule(token_found, core_found, claims_member) == Err::<Uuid, ContextFailure>(
            ContextFailure::MissingAuthorizationToken,
        ),
        token_found && !core_found ==> context_rule(token_found, core_found, claims_member) == Err::<
            Uuid,
            ContextFailure,
        >(ContextFailure::CoreUnavailable),
        token_found && core_found && claims_member is None ==> context_rule(token_found, core_found, claims_member)
            == Err::<Uuid, ContextFailure>(ContextFailure::InvalidAuthorizationToken),
{
}

/// Missing or invalid credentials are answered 401, rejected email or password
/// input 400, an unknown route 404, and failures below the application 500.
pub proof fn lemma_app_error_statuses(sdk: SDKError, jwt: String)
    ensures
        app_error_status(PlexoAppError::MissingAuthorizationToken) == 401,
        app_error_status(PlexoAppError::InvalidAuthorizationToken) == 401,
        app_error_status(PlexoAppError::EmailAlreadyInUse) == 400,
        app_error_status(PlexoAppError::InvalidPassword) == 400,
        app_error_status(PlexoAppError::EmailNotFound) == 400,
        app_error_status(PlexoAppError::EmailAlreadyExists) == 400,
        app_error_status(PlexoAppError::NotFoundPoemError) == 404,
        app_error_status(PlexoAppError::SDKError(sdk)) == 500,
        app_error_status(PlexoAppError::SDKErrorExtended(SDKErrorExtended(sdk))) == 500,
        app_error_status(PlexoAppError::JSONWebTokenError(jwt)) == 500,
{
}

/// The profile read from a GitHub user keeps the email and name that GitHub
/// gives as strings; a user without a string email gets its id at
/// `no-email.github.com`, and one without a string name is named by its id.
pub proof fn lemma_github_profile_fallbacks(user: GithubUser)
    requires
        readable_user(user),
    ensures
        ({
            let p = profile_rule(user);
            &&& p.github_id == int_decimal(user.id.unwrap() as int)
            &&& (user.email matches JsonField::Text(e) ==> p.email == e@)
            &&& (!(user.email is Text) ==> p.email == p.github_id + "@no-email.github.com"@)
            &&& (user.name matches JsonField::Text(n) ==> p.name == n@)
            &&& (!(user.name is Text) ==> p.name == p.github_id)
        }),
{
}

/// The number that a text of decimal digits stands for.
pub open spec fn digits_value(text: Seq<char>) -> int
    decreases text.len(),
{
    if text.len() == 0 {
        0
    } else {
        digits_value(text.drop_last()) * 10 + (text.last() as int - '0' as int)
    }
}

proof fn lemma_digit_value(d: nat)
    requires
        d < 10,
    ensures
        crate::decimal::digit_char(d) as int - '0' as int == d,
        '0' <= crate::decimal::digit_char(d) <= '9',
        d > 0 ==> crate::decimal::digit_char(d) != '0',
{
}

/// Writing a natural number in decimal gives a non-empty text of digits,
/// without a leading zero unless the number is zero, that stands for the
/// number itself; a negative number is written as a minus sign before its
/// magnitude.
pub proof fn lemma_decimal_reads_back(n: nat)
    ensures
        nat_decimal(n).len() > 0,
        forall|i: int| 0 <= i < nat_decimal(n).len() ==> '0' <= #[trigger] nat_decimal(n)[i] <= '9',
        n > 0 ==> nat_decimal(n)[0] != '0',
        digits_value(nat_decimal(n)) == n,
        int_decimal(-(n as int)) == if n == 0 { seq!['0'] } else { seq!['-'] + nat_decimal(n) },
    decreases n,
{
    lemma_digit_value(n % 10);
    if n >= 10 {
        lemma_decimal_reads_back(n / 10);
        let s = nat_decimal(n);
        assert(s.drop_last() =~= nat_decimal(n / 10));
        assert(s.last() == crate::decimal::digit_char(n % 10));
        assert(n == (n / 10) * 10 + n % 10);
        assert forall|i: int| 0 <= i < s.len() implies '0' <= #[trigger] s[i] <= '9' by {
            if i < s.len() - 1 {
                assert(s[i] == nat_decimal(n / 10)[i]);
            }
        }
        assert(s[0] == nat_decimal(n / 10)[0]);
        assert(digits_value(s) == digits_value(s.drop_last()) * 10 + (s.last() as int - '0' as int));
        assert(digits_value(s) == (n / 10) as int * 10 + (n % 10) as int);
    } else {
        let s = nat_decimal(n);
        assert(s.drop_last() =~= Seq::<char>::empty());
        assert(n % 10 == n);
        assert(digits_value(Seq::<char>::empty()) == 0);
        assert(digits_value(s) == digits_value(s.drop_last()) * 10 + (s.last() as int - '0' as int));
    }
}

/// The placeholder event streams yield the ten numbers 0 to 9, in order.
pub proof fn lemma_event_numbers()
    ensures
        first_ten().len() == 10,
        forall|i: int| 0 <= i < 10 ==> #[trigger] first_ten()[i] == i,
{
}

/// Looking up the default admin: a member found with its email means the admin
/// exists, a failed lookup stops start-up, and only an empty answer goes on to
/// look at the members.
pub proof fn lemma_admin_lookup_steps<T>(found: T)
    ensures
        admin_lookup_rule(Lookup::Found(found)) == AdminLookupStep::AdminExists,
        admin_lookup_rule(Lookup::<T>::Failed) == AdminLookupStep::LookupFailed,
        admin_lookup_rule(Lookup::<T>::Absent) == AdminLookupStep::CheckMembers,
{
}

/// A `Cookie` header that holds only the session cookie yields its value.
pub proof fn lemma_cookie_header_with_session(value: Seq<char>)
    requires
        forall|i: int| 0 <= i < value.len() ==> value[i] != ';',
    ensures
        cookie_value_from(session_cookie_name() + "="@ + value, 0, session_cookie_name()) == Some(value),
{
    reveal_strlit("__Host-plexo-session-token");
    reveal_strlit("=");
    let name = session_cookie_name();
    let h = name + "="@ + value;
    assert(name.len() == 26);
    assert forall|i: int| 0 <= i < h.len() implies h[i] != ';' by {
        if i >= 27 {
            assert(h[i] == value[i - 27]);
        }
    }
    lemma_pair_end_bounds(h, 0);
    assert(pair_end(h, 0) == h.len());
    assert(h[0] == '_');
    assert(skip_spaces(h, 0, h.len() as int) == 0);
    assert(h.subrange(0, 26) =~= name);
    assert(h[26] == '=');
    assert(h.subrange(27, h.len() as int) =~= value);
}

} // verus!

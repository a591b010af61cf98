use vstd::prelude::*;

use crate::errors::PlexoAppError;
use crate::members::{Lookup, NewEmailMember};
use crate::reply::{
    error_reply, error_reply_with, internal_error_message, internal_error_reply, internal_error_with,
    reply_of, step_of, text_of, BodyView, Reply, ReplyBody, ReplyView,
};
use crate::session::{
    can_clear_at, can_issue_at, cleared_cookie, cleared_session_cookie, issued_cookie, session_cookie,
};

verus! {

/// The token a request presents: the one in its headers when there is one,
/// else the one in its session cookie.
pub open spec fn token_rule(from_headers: Option<String>, from_cookie: Option<String>) -> Option<
    Seq<char>,
> {
    match from_headers {
        Some(t) => Some(t@),
        None => text_of(from_cookie),
    }
}

/// Picks the token of a request: the headers win over the cookie, and a request
/// with neither is answered as not found.
pub fn select_token(from_headers: Option<String>, from_cookie: Option<String>) -> (token: Result<
    String,
    PlexoAppError,
>)
    ensures
        token matches Ok(t) ==> token_rule(from_headers, from_cookie) == Some(t@),
        token is Err <==> token_rule(from_headers, from_cookie) is None,
        token matches Err(e) ==> e is NotFoundPoemError,
{
    if let Some(token) = from_headers {
        return Ok(token);
    }
    if let Some(token) = from_cookie {
        return Ok(token);
    }
    Err(PlexoAppError::NotFoundPoemError)
}

/// Where GitHub sign-in sends the browser: a temporary redirect to the
/// authorization page, or a server error when no such page could be made.
pub open spec fn sign_in_rule(authorize_url: Option<Seq<char>>) -> ReplyView {
    match authorize_url {
        Some(url) => ReplyView {
            status: 307,
            location: Some(url),
            no_cache: false,
            cookie: None,
            body: BodyView::Empty,
        },
        None => internal_error_reply("Internal Server Error (github)"@),
    }
}

/// The reply to a request to sign in with GitHub.
pub fn github_sign_in_handler(authorize_url: Option<String>) -> (reply: Reply)
    ensures
        reply@ == sign_in_rule(text_of(authorize_url)),
{
    match authorize_url {
        Some(url) => Reply {
            status: 307,
            location: Some(url),
            no_cache: false,
            cookie: None,
            body: ReplyBody::Empty,
        },
        None => internal_error_with("Internal Server Error (github)"),
    }
}

/// After GitHub calls back: the access token when the code exchange succeeded,
/// else a server error that carries the failed result.
pub open spec fn exchange_rule(exchange: Result<String, String>) -> Result<Seq<char>, ReplyView> {
    match exchange {
        Ok(token) => Ok(token@),
        Err(failure) => Err(
            ReplyView {
                status: 500,
                location: None,
                no_cache: false,
                cookie: None,
                body: BodyView::ExchangeFailure(failure@),
            },
        ),
    }
}

/// Checks the result of exchanging GitHub's authorization code for an access token.
pub fn github_exchange_check(exchange: Result<String, String>) -> (step: Result<String, Reply>)
    ensures
        step_of(step) == exchange_rule(exchange),
{
    match exchange {
        Ok(token) => Ok(token),
        Err(failure) => Err(
            Reply {
                status: 500,
                location: None,
                no_cache: false,
                cookie: None,
                body: ReplyBody::ExchangeFailure(failure),
            },
        ),
    }
}

/// The end of a GitHub sign-in: a redirect home that sets the session cookie
/// and forbids caching, or a server error when no session token was made.
pub open spec fn github_session_rule(token: Option<Seq<char>>, now: int) -> ReplyView {
    match token {
        Some(t) => ReplyView {
            status: 302,
            location: Some("/"@),
            no_cache: true,
            cookie: Some(issued_cookie(t, now)),
            body: BodyView::Empty,
        },
        None => internal_error_reply(internal_error_message()),
    }
}

/// The reply that ends a GitHub sign-in.
pub fn github_session_reply(token: Option<String>, now: i64) -> (reply: Reply)
    requires
        token is Some ==> can_issue_at(now),
    ensures
        reply@ == github_session_rule(text_of(token), now as int),
{
    match token {
        Some(t) => Reply {
            status: 302,
            location: Some(String::from_str("/")),
            no_cache: true,
            cookie: Some(session_cookie(t, now)),
            body: ReplyBody::Empty,
        },
        None => internal_error_with("Internal Server Error"),
    }
}

/// First check of an email login: the member must exist and have a password.
/// Goes on with the stored password hash.
pub open spec fn login_member_rule(lookup: Lookup<Option<String>>) -> Result<Seq<char>, ReplyView> {
    match lookup {
        Lookup::Found(Some(hash)) => Ok(hash@),
        Lookup::Found(None) => Err(error_reply(401, "Invalid password"@)),
        _ => Err(error_reply(401, "Member not found"@)),
    }
}

/// Checks the member found for an email login; `lookup` holds the member's
/// password hash when one was found.
pub fn login_member_check(lookup: Lookup<Option<String>>) -> (step: Result<String, Reply>)
    ensures
        step_of(step) == login_member_rule(lookup),
{
    match lookup {
        Lookup::Found(Some(hash)) => Ok(hash),
        Lookup::Found(None) => Err(error_reply_with(401, "Invalid password")),
        _ => Err(error_reply_with(401, "Member not found")),
    }
}

/// Second check of an email login: the password must match the stored hash.
pub open spec fn password_rule(password_matches: bool) -> Option<ReplyView> {
    if password_matches {
        None
    } else {
        Some(error_reply(401, "Invalid password"@))
    }
}

/// Refuses an email login whose password does not match.
pub fn login_password_check(password_matches: bool) -> (refusal: Option<Reply>)
    ensures
        reply_of(refusal) == password_rule(password_matches),
{
    if password_matches {
        None
    } else {
        Some(error_reply_with(401, "Invalid password"))
    }
}

/// The end of an email login or registration: 200 with the session cookie and
/// the token in the body, or a server error when no session token was made.
pub open spec fn session_rule(token: Option<Seq<char>>, now: int) -> ReplyView {
    match token {
        Some(t) => ReplyView {
            status: 200,
            location: None,
            no_cache: false,
            cookie: Some(issued_cookie(t, now)),
            body: BodyView::AccessToken(t),
        },
        None => internal_error_reply(internal_error_message()),
    }
}

/// The reply that ends an email login or registration.
pub fn session_reply(token: Option<String>, now: i64) -> (reply: Reply)
    requires
        token is Some ==> can_issue_at(now),
    ensures
        reply@ == session_rule(text_of(token), now as int),
{
    match token {
        Some(t) => {
            let body = t.clone();
            Reply {
                status: 200,
                location: None,
                no_cache: false,
                cookie: Some(session_cookie(t, now)),
                body: ReplyBody::AccessToken(body),
            }
        },
        None => internal_error_with("Internal Server Error"),
    }
}

/// The whole email login, given what each outside step answered: the member
/// lookup, the password check and the creation of the session token. Steps
/// after a refusal are not taken, so their answers do not matter.
pub open spec fn login_flow(
    lookup: Lookup<Option<String>>,
    password_matches: bool,
    token: Option<Seq<char>>,
    now: int,
) -> ReplyView {
    match login_member_rule(lookup) {
        Err(refusal) => refusal,
        Ok(_) => match password_rule(password_matches) {
            Some(refusal) => refusal,
            None => session_rule(token, now),
        },
    }
}

/// Registration refuses an email whose lookup succeeded. The lookup succeeds
/// also when it finds no member, so only a failing lookup lets it go on.
pub open spec fn register_lookup_rule(lookup_succeeded: bool) -> Option<ReplyView> {
    if lookup_succeeded {
        Some(error_reply(401, "Member already exists"@))
    } else {
        None
    }
}

/// Checks the lookup of the email that a registration asks for.
pub fn register_lookup_check(lookup_succeeded: bool) -> (refusal: Option<Reply>)
    ensures
        reply_of(refusal) == register_lookup_rule(lookup_succeeded),
{
    if lookup_succeeded {
        Some(error_reply_with(401, "Member already exists"))
    } else {
        None
    }
}

/// The member that a registration creates: the given email, name and password
/// hash, with the default role and no photo.
pub fn register_member_input(email: String, name: String, password_hash: String) -> (input:
    NewEmailMember)
    ensures
        input.email == email,
        input.name == name,
        input.password_hash == password_hash,
        input.role is None,
        input.photo_url is None,
{
    NewEmailMember { email, name, password_hash, role: None, photo_url: None }
}

/// A registration whose member could not be created fails on the server.
pub open spec fn register_creation_rule(created: bool) -> Option<ReplyView> {
    if created {
        None
    } else {
        Some(internal_error_reply(internal_error_message()))
    }
}

/// Checks the creation of the member of a registration.
pub fn register_creation_check(created: bool) -> (refusal: Option<Reply>)
    ensures
        reply_of(refusal) == register_creation_rule(created),
{
    if created {
        None
    } else {
        Some(internal_error_with("Internal Server Error"))
    }
}

/// The whole registration, given what each outside step answered.
pub open spec fn register_flow(
    lookup_succeeded: bool,
    created: bool,
    token: Option<Seq<char>>,
    now: int,
) -> ReplyView {
    match register_lookup_rule(lookup_succeeded) {
        Some(refusal) => refusal,
        None => match register_creation_rule(created) {
            Some(failure) => failure,
            None => session_rule(token, now),
        },
    }
}

/// Logging out: a permanent redirect home that replaces the session cookie
/// with an expired empty one and forbids caching.
pub open spec fn logout_rule(now: int) -> ReplyView {
    ReplyView {
        status: 301,
        location: Some("/"@),
        no_cache: true,
        cookie: Some(cleared_cookie(now)),
        body: BodyView::Empty,
    }
}

/// The reply to a logout from the browser.
pub fn logout(now: i64) -> (reply: Reply)
    requires
        can_clear_at(now),
    ensures
        reply@ == logout_rule(now as int),
{
    Reply {
        status: 301,
        location: Some(String::from_str("/")),
        no_cache: true,
        cookie: Some(cleared_session_cookie(now)),
        body: ReplyBody::Empty,
    }
}

/// Logging out through the API: 200 with an expired empty session cookie and
/// an empty access token.
pub open spec fn logout_api_rule(now: int) -> ReplyView {
    ReplyView {
        status: 200,
        location: None,
        no_cache: false,
        cookie: Some(cleared_cookie(now)),
        body: BodyView::AccessToken(Seq::empty()),
    }
}

/// The reply to a logout through the API.
pub fn logout_handler(now: i64) -> (reply: Reply)
    requires
        can_clear_at(now),
    ensures
        reply@ == logout_api_rule(now as int),
{
    let reply = Reply {
        status: 200,
        location: None,
        no_cache: false,
        cookie: Some(cleared_session_cookie(now)),
        body: ReplyBody::AccessToken(String::new()),
    };
    assert(reply@.body == BodyView::AccessToken(Seq::empty()));
    reply
}

} // verus!

use vstd::prelude::*;

use crate::session::{CookieView, SessionCookie};

verus! {

/// The body of an HTTP reply. Every body but `Empty` is sent as JSON.
pub enum ReplyBody {
    Empty,
    /// `{"error": message}`
    ErrorMessage(String),
    /// A GraphQL error object, `{"message": message}`.
    GraphQLError(String),
    /// `{"access_token": token}`
    AccessToken(String),
    /// The failed result of an OAuth code exchange, already serialized.
    ExchangeFailure(String),
}

/// A reply body as values.
pub enum BodyView {
    Empty,
    ErrorMessage(Seq<char>),
    GraphQLError(Seq<char>),
    AccessToken(Seq<char>),
    ExchangeFailure(Seq<char>),
}

impl View for ReplyBody {
    type V = BodyView;

    open spec fn view(&self) -> BodyView {
        match self {
            ReplyBody::Empty => BodyView::Empty,
            ReplyBody::ErrorMessage(m) => BodyView::ErrorMessage(m@),
            ReplyBody::GraphQLError(m) => BodyView::GraphQLError(m@),
            ReplyBody::AccessToken(t) => BodyView::AccessToken(t@),
            ReplyBody::ExchangeFailure(f) => BodyView::ExchangeFailure(f@),
        }
    }
}

/// An HTTP reply of the authentication endpoints: status, redirect target,
/// whether caching is forbidden, the session cookie to set, and the body.
pub struct Reply {
    pub status: u16,
    pub location: Option<String>,
    pub no_cache: bool,
    pub cookie: Option<SessionCookie>,
    pub body: ReplyBody,
}

/// A reply as values.
pub struct ReplyView {
    pub status: u16,
    pub location: Option<Seq<char>>,
    pub no_cache: bool,
    pub cookie: Option<CookieView>,
    pub body: BodyView,
}

/// The characters of an optional string.
pub open spec fn text_of(s: Option<String>) -> Option<Seq<char>> {
    match s {
        Some(t) => Some(t@),
        None => None,
    }
}

impl View for Reply {
    type V = ReplyView;

    open spec fn view(&self) -> ReplyView {
        ReplyView {
            status: self.status,
            location: text_of(self.location),
            no_cache: self.no_cache,
            cookie: match self.cookie {
                Some(c) => Some(c@),
                None => None,
            },
            body: self.body@,
        }
    }
}

/// An optional reply as values.
pub open spec fn reply_of(r: Option<Reply>) -> Option<ReplyView> {
    match r {
        Some(reply) => Some(reply@),
        None => None,
    }
}

/// A step that either goes on with a string or stops with a reply, as values.
pub open spec fn step_of(r: Result<String, Reply>) -> Result<Seq<char>, ReplyView> {
    match r {
        Ok(s) => Ok(s@),
        Err(reply) => Err(reply@),
    }
}

/// A refusal: `status` with `{"error": message}` and nothing else.
pub open spec fn error_reply(status: u16, message: Seq<char>) -> ReplyView {
    ReplyView {
        status,
        location: None,
        no_cache: false,
        cookie: None,
        body: BodyView::ErrorMessage(message),
    }
}

/// A failure of the server: 500 with a GraphQL error object.
pub open spec fn internal_error_reply(message: Seq<char>) -> ReplyView {
    ReplyView {
        status: 500,
        location: None,
        no_cache: false,
        cookie: None,
        body: BodyView::GraphQLError(message),
    }
}

/// The message of a failure of the server while issuing a session.
pub open spec fn internal_error_message() -> Seq<char> {
    "Internal Server Error"@
}

pub(crate) fn error_reply_with(status: u16, message: &str) -> (reply: Reply)
    ensures
        reply@ == error_reply(status, message@),
{
    Reply {
        status,
        location: None,
        no_cache: false,
        cookie: None,
        body: ReplyBody::ErrorMessage(String::from_str(message)),
    }
}

pub(crate) fn internal_error_with(message: &str) -> (reply: Reply)
    ensures
        reply@ == internal_error_reply(message@),
{
    Reply {
        status: 500,
        location: None,
        no_cache: false,
        cookie: None,
        body: ReplyBody::GraphQLError(String::from_str(message)),
    }
}

} // verus!

verus! {

/// The headers that forbid caching a reply: `Cache-Control`, `Pragma` and
/// `Expires`, with the values sent when a reply's `no_cache` is set.
pub fn no_cache_headers() -> (headers: Vec<(&'static str, &'static str)>)
    ensures
        headers@.len() == 3,
        headers@[0].0@ == "Cache-Control"@,
        headers@[0].1@ == "no-cache, no-store, must-revalidate"@,
        headers@[1].0@ == "Pragma"@,
        headers@[1].1@ == "no-cache"@,
        headers@[2].0@ == "Expires"@,
        headers@[2].1@ == "0"@,
{
    let mut headers: Vec<(&'static str, &'static str)> = Vec::new();
    headers.push(("Cache-Control", "no-cache, no-store, must-revalidate"));
    headers.push(("Pragma", "no-cache"));
    headers.push(("Expires", "0"));
    headers
}

} // verus!

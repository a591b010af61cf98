use vstd::prelude::*;

use crate::time::{days_in_seconds, SECONDS_PER_DAY};

verus! {

/// The `SameSite` attribute of a session cookie.
#[derive(PartialEq, Eq, Structural, Clone, Copy, Debug)]
pub enum SameSite {
    Strict,
    Lax,
}

/// The cookie that carries a session token. Its expiry is a Unix time in seconds.
pub struct SessionCookie {
    pub name: String,
    pub value: String,
    pub http_only: bool,
    pub secure: bool,
    pub same_site: SameSite,
    pub expires_at: i64,
    pub path: String,
}

/// A session cookie as values.
pub struct CookieView {
    pub name: Seq<char>,
    pub value: Seq<char>,
    pub http_only: bool,
    pub secure: bool,
    pub same_site: SameSite,
    pub expires_at: int,
    pub path: Seq<char>,
}

impl View for SessionCookie {
    type V = CookieView;

    open spec fn view(&self) -> CookieView {
        CookieView {
            name: self.name@,
            value: self.value@,
            http_only: self.http_only,
            secure: self.secure,
            same_site: self.same_site,
            expires_at: self.expires_at as int,
            path: self.path@,
        }
    }
}

/// The name of the cookie that stores the session token.
pub const COOKIE_SESSION_TOKEN_NAME: &'static str = "__Host-plexo-session-token";

/// The name under which the session token is stored.
pub open spec fn session_cookie_name() -> Seq<char> {
    COOKIE_SESSION_TOKEN_NAME@
}

/// How long an issued session lasts: seven days.
pub open spec fn session_lifetime() -> int {
    7 * SECONDS_PER_DAY
}

/// The cookie that opens a session with `token` at time `now`: readable by the
/// server only, sent over secure connections, for the whole site, same-site
/// `Lax`, and valid for seven days.
pub open spec fn issued_cookie(token: Seq<char>, now: int) -> CookieView {
    CookieView {
        name: session_cookie_name(),
        value: token,
        http_only: true,
        secure: true,
        same_site: SameSite::Lax,
        expires_at: now + session_lifetime(),
        path: "/"@,
    }
}

/// The cookie that ends a session at time `now`: empty, same-site `Strict`, and
/// already expired one day before `now`.
pub open spec fn cleared_cookie(now: int) -> CookieView {
    CookieView {
        name: session_cookie_name(),
        value: Seq::empty(),
        http_only: true,
        secure: true,
        same_site: SameSite::Strict,
        expires_at: now - SECONDS_PER_DAY,
        path: "/"@,
    }
}

/// Whether a session can be issued at `now` without its expiry leaving the
/// range of a timestamp.
pub open spec fn can_issue_at(now: i64) -> bool {
    now + session_lifetime() <= i64::MAX
}

/// Whether a session can be cleared at `now` without its expiry leaving the
/// range of a timestamp.
pub open spec fn can_clear_at(now: i64) -> bool {
    now - SECONDS_PER_DAY >= i64::MIN
}

fn cookie_name() -> (name: String)
    ensures
        name@ == session_cookie_name(),
{
    String::from_str(COOKIE_SESSION_TOKEN_NAME)
}

/// The cookie that stores a new session token.
pub fn session_cookie(token: String, now: i64) -> (cookie: SessionCookie)
    requires
        can_issue_at(now),
    ensures
        cookie@ == issued_cookie(token@, now as int),
{
    let lifetime = days_in_seconds(7);
    SessionCookie {
        name: cookie_name(),
        value: token,
        http_only: true,
        secure: true,
        same_site: SameSite::Lax,
        expires_at: now + lifetime,
        path: String::from_str("/"),
    }
}

/// The cookie that replaces the session token when a member logs out.
pub fn cleared_session_cookie(now: i64) -> (cookie: SessionCookie)
    requires
        can_clear_at(now),
    ensures
        cookie@ == cleared_cookie(now as int),
{
    let one_day = days_in_seconds(1);
    let cookie = SessionCookie {
        name: cookie_name(),
        value: String::new(),
        http_only: true,
        secure: true,
        same_site: SameSite::Strict,
        expires_at: now - one_day,
        path: String::from_str("/"),
    };
    assert(cookie.value@ =~= Seq::<char>::empty());
    cookie
}

} // verus!

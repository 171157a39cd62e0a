//! The answers a request handler can give the browser, and the cookie that
//! carries a session.

use vstd::prelude::*;

verus! {

/// The `SameSite` attribute of a cookie.
pub enum SameSite {
    Strict,
    Lax,
    /// `SameSite=None`: the cookie travels with cross-site requests too.
    Unrestricted,
}

/// A cookie to set on, or remove from, the browser.
pub struct CookieSpec {
    pub name: String,
    pub value: String,
    pub path: String,
    pub same_site: SameSite,
    pub http_only: bool,
    /// `Max-Age` in seconds; `None` makes it a session cookie.
    pub max_age_secs: Option<i64>,
}

/// What a handler answers.
pub enum Reply<P> {
    /// A rendered page.
    Page(P),
    /// `303 See Other` to the given path.
    Redirect(String),
    /// Store `cookie`, then redirect to `redirect`.
    SetCookie { cookie: CookieSpec, redirect: String },
    /// Remove `cookie`, then redirect to `redirect`.
    RemoveCookie { cookie: CookieSpec, redirect: String },
}

/// The name of the cookie that holds the signed-in user.
pub open spec fn session_cookie_name() -> Seq<char> {
    "session"@
}

/// The path the session cookie is scoped to.
pub open spec fn session_cookie_path() -> Seq<char> {
    "/"@
}

/// The home page.
pub open spec fn home_path() -> Seq<char> {
    "/"@
}

/// The sign-in page, where anonymous visitors of protected pages are sent.
pub open spec fn login_path() -> Seq<char> {
    "/auth/login"@
}

/// The attributes every cookie of the session shares: its name, its path, `SameSite=Lax`
/// and `HttpOnly`.
pub open spec fn is_session_scoped(c: CookieSpec) -> bool {
    &&& c.name@ == session_cookie_name()
    &&& c.path@ == session_cookie_path()
    &&& c.same_site is Lax
    &&& c.http_only
}

/// `c` is the session cookie that holds `value` for as long as the browser runs.
pub open spec fn is_session_cookie(c: CookieSpec, value: Seq<char>) -> bool {
    &&& is_session_scoped(c)
    &&& c.value@ == value
    &&& c.max_age_secs is None
}

/// `c` is the cookie that, removed from the browser, ends the session.
pub open spec fn is_session_removal_cookie(c: CookieSpec) -> bool {
    &&& is_session_scoped(c)
    &&& c.value@ == Seq::<char>::empty()
    &&& c.max_age_secs == Some(0i64)
}

/// The session cookie that carries `session_json`, the serialized signed-in user.
pub fn build_session_cookie(session_json: String) -> (c: CookieSpec)
    ensures
        is_session_cookie(c, session_json@),
        c.name@ == "session"@ && c.value@ == session_json@ && c.path@ == "/"@,
        c.same_site is Lax && c.http_only && c.max_age_secs is None,
{
    CookieSpec {
        name: String::from_str("session"),
        value: session_json,
        path: String::from_str("/"),
        same_site: SameSite::Lax,
        http_only: true,
        max_age_secs: None,
    }
}

/// The cookie whose removal signs the user out.
pub fn session_removal_cookie() -> (c: CookieSpec)
    ensures
        is_session_removal_cookie(c),
        c.name@ == "session"@ && c.value@.len() == 0 && c.path@ == "/"@,
        c.same_site is Lax && c.http_only && c.max_age_secs == Some(0i64),
{
    CookieSpec {
        name: String::from_str("session"),
        value: String::new(),
        path: String::from_str("/"),
        same_site: SameSite::Lax,
        http_only: true,
        max_age_secs: Some(0),
    }
}

/// The answer once a user is known: store the session cookie that carries
/// `session_json` and go to the home page.
pub fn sign_in<P>(session_json: String) -> (r: Reply<P>)
    ensures
        r matches Reply::SetCookie { cookie, redirect } && is_session_cookie(cookie, session_json@)
            && redirect@ == home_path(),
        r matches Reply::SetCookie { cookie, redirect } && cookie.value@ == session_json@
            && cookie.name@ == "session"@ && cookie.path@ == "/"@ && redirect@ == "/"@,
{
    Reply::SetCookie { cookie: build_session_cookie(session_json), redirect: String::from_str("/") }
}

/// Two cookies of the session: the one set at sign-in and the one removed at
/// sign-out have the same name and path, so the removal reaches the stored cookie.
pub proof fn removal_reaches_session_cookie(set: CookieSpec, value: Seq<char>, removed: CookieSpec)
    requires
        is_session_cookie(set, value),
        is_session_removal_cookie(removed),
    ensures
        set.name@ == removed.name@,
        set.path@ == removed.path@,
{
}

} // verus!

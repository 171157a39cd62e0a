//! The cookies of a request: finding the session among them, and storing or
//! removing cookies on the way back.

use vstd::prelude::*;
use axum_extra::extract::cookie::{Cookie, CookieJar};
use crate::web::{
    CookieSpec, Reply, SameSite, is_session_cookie, is_session_removal_cookie, session_cookie_name,
    session_cookie_path,
};

verus! {

/// `axum_extra::extract::cookie::CookieJar`, the cookies of a request.
#[verifier::external_type_specification]
#[verifier::external_body]
pub struct ExCookieJar(CookieJar);

/// The cookies the request carried into a jar: the value of each, by name.
pub uninterp spec fn jar_received(jar: CookieJar) -> Map<Seq<char>, Seq<char>>;

/// The cookie changes a jar sends back to the browser, by name: whether the entry
/// is a removal, then the cookie's value, path, `SameSite` text, `HttpOnly` flag
/// and `Max-Age` in seconds.
pub uninterp spec fn jar_sent(jar: CookieJar) -> Map<
    Seq<char>,
    (bool, Seq<char>, Seq<char>, Seq<char>, bool, Option<i64>),
>;

/// How the `SameSite` attribute is written.
pub open spec fn same_site_text(s: SameSite) -> Seq<char> {
    match s {
        SameSite::Strict => "Strict"@,
        SameSite::Lax => "Lax"@,
        SameSite::Unrestricted => "None"@,
    }
}

/// The change sent back for `c`: stored when `removed` is false, removed otherwise.
pub open spec fn sent_record(removed: bool, c: CookieSpec) -> (
    bool,
    Seq<char>,
    Seq<char>,
    Seq<char>,
    bool,
    Option<i64>,
) {
    (removed, c.value@, c.path@, same_site_text(c.same_site), c.http_only, c.max_age_secs)
}

/// The removal sent back for `c`: empty value and `Max-Age` zero, with `c`'s path,
/// `SameSite` and `HttpOnly`.
pub open spec fn removal_record(c: CookieSpec) -> (
    bool,
    Seq<char>,
    Seq<char>,
    Seq<char>,
    bool,
    Option<i64>,
) {
    (true, Seq::empty(), c.path@, same_site_text(c.same_site), c.http_only, Some(0i64))
}

/// The cookies a jar holds, as `CookieJar::get` finds them: a change sent back
/// takes precedence over what the request carried, and a removal leaves nothing.
pub open spec fn jar_cookies(jar: CookieJar) -> Map<Seq<char>, Seq<char>> {
    Map::new(
        |n: Seq<char>|
            if jar_sent(jar).contains_key(n) {
                !jar_sent(jar)[n].0
            } else {
                jar_received(jar).contains_key(n)
            },
        |n: Seq<char>|
            if jar_sent(jar).contains_key(n) {
                jar_sent(jar)[n].1
            } else {
                jar_received(jar)[n]
            },
    )
}

/// Calls `CookieJar::get(name)` and takes the value of the cookie found.
///
/// Claimed: a cookie is found exactly when the jar holds one under `name`, and the
/// value returned is the one the jar holds under that name.
#[verifier::external_body]
fn jar_cookie_value(jar: &CookieJar, name: &str) -> (r: Option<String>)
    ensures
        match r {
            Some(v) => jar_cookies(*jar).contains_key(name@) && v@ == jar_cookies(*jar)[name@],
            None => !jar_cookies(*jar).contains_key(name@),
        },
{
    match jar.get(name) {
        Some(cookie) => Some(cookie.value().to_string()),
        None => None,
    }
}

/// The value of the session cookie of a request, if it carries one: the cookie
/// under the name that signing in sets.
pub fn session_cookie(jar: &CookieJar) -> (r: Option<String>)
    ensures
        match r {
            Some(v) => jar_cookies(*jar).contains_key(session_cookie_name()) && v@ == jar_cookies(
                *jar,
            )[session_cookie_name()],
            None => !jar_cookies(*jar).contains_key(session_cookie_name()),
        },
{
    jar_cookie_value(jar, "session")
}

/// Builds the `Cookie` that `cookie` describes and calls `CookieJar::add` with it.
///
/// Claimed: the cookies the request carried are unchanged, and the changes sent back
/// gain, under `cookie`'s name, the stored cookie with `cookie`'s value, path,
/// `SameSite`, `HttpOnly` and `Max-Age` (the crate keeps added cookies by name,
/// replacing one of the same name).
#[verifier::external_body]
fn jar_add(jar: CookieJar, cookie: CookieSpec) -> (r: CookieJar)
    ensures
        jar_received(r) == jar_received(jar),
        jar_sent(r) == jar_sent(jar).insert(cookie.name@, sent_record(false, cookie)),
{
    let same_site = match cookie.same_site {
        SameSite::Strict => axum_extra::extract::cookie::SameSite::Strict,
        SameSite::Lax => axum_extra::extract::cookie::SameSite::Lax,
        SameSite::Unrestricted => axum_extra::extract::cookie::SameSite::None,
    };
    let mut built = Cookie::build((cookie.name, cookie.value))
        .path(cookie.path)
        .same_site(same_site)
        .http_only(cookie.http_only)
        .build();
    built.set_max_age(cookie.max_age_secs.map(time::Duration::seconds));
    jar.add(built)
}

/// Builds the `Cookie` that `cookie` describes and calls `CookieJar::remove` with it.
///
/// Claimed: the cookies the request carried are unchanged; when the request carried a
/// cookie under `cookie`'s name, the changes sent back gain its removal (empty value,
/// `Max-Age` zero, and `cookie`'s path, `SameSite` and `HttpOnly`), and otherwise any
/// change of that name is dropped. The removal's expiry date in the past, which the
/// crate also sets, is not described.
#[verifier::external_body]
fn jar_remove(jar: CookieJar, cookie: CookieSpec) -> (r: CookieJar)
    ensures
        jar_received(r) == jar_received(jar),
        jar_sent(r) == if jar_received(jar).contains_key(cookie.name@) {
            jar_sent(jar).insert(cookie.name@, removal_record(cookie))
        } else {
            jar_sent(jar).remove(cookie.name@)
        },
{
    let same_site = match cookie.same_site {
        SameSite::Strict => axum_extra::extract::cookie::SameSite::Strict,
        SameSite::Lax => axum_extra::extract::cookie::SameSite::Lax,
        SameSite::Unrestricted => axum_extra::extract::cookie::SameSite::None,
    };
    let mut built = Cookie::build((cookie.name, cookie.value))
        .path(cookie.path)
        .same_site(same_site)
        .http_only(cookie.http_only)
        .build();
    built.set_max_age(cookie.max_age_secs.map(time::Duration::seconds));
    jar.remove(built)
}

/// What goes back to the browser besides the cookies.
pub enum Answer<P> {
    /// A rendered page.
    Page(P),
    /// A redirect to the given path.
    Redirect(String),
}

/// Applies a reply's cookie change to the request's cookies: the jar to send back,
/// and the page or redirect that goes with it.
pub fn settle<P>(jar: CookieJar, reply: Reply<P>) -> (r: (CookieJar, Answer<P>))
    ensures
        jar_received(r.0) == jar_received(jar),
        match reply {
            Reply::Page(p) => jar_sent(r.0) == jar_sent(jar) && r.1 == Answer::Page(p),
            Reply::Redirect(to) => jar_sent(r.0) == jar_sent(jar) && r.1 == Answer::<P>::Redirect(to),
            Reply::SetCookie { cookie, redirect } => jar_sent(r.0) == jar_sent(jar).insert(
                cookie.name@,
                sent_record(false, cookie),
            ) && r.1 == Answer::<P>::Redirect(redirect),
            Reply::RemoveCookie { cookie, redirect } => jar_sent(r.0) == (if jar_received(
                jar,
            ).contains_key(cookie.name@) {
                jar_sent(jar).insert(cookie.name@, removal_record(cookie))
            } else {
                jar_sent(jar).remove(cookie.name@)
            }) && r.1 == Answer::<P>::Redirect(redirect),
        },
{
    match reply {
        Reply::Page(p) => (jar, Answer::Page(p)),
        Reply::Redirect(to) => (jar, Answer::Redirect(to)),
        Reply::SetCookie { cookie, redirect } => (jar_add(jar, cookie), Answer::Redirect(redirect)),
        Reply::RemoveCookie { cookie, redirect } => (jar_remove(jar, cookie), Answer::Redirect(redirect)),
    }
}

/// Signing in sends the browser the session cookie as built, and signing out undoes
/// it: after the session cookie is stored and then the sign-out cookie removed, the
/// jar holds no session and every other cookie as before signing in. When the request
/// carried a session, the browser is sent its removal at the session's path, with
/// `SameSite=Lax`, `HttpOnly` and `Max-Age` zero.
pub proof fn sign_out_undoes_sign_in(
    before: CookieJar,
    signed_in: CookieJar,
    signed_out: CookieJar,
    set: CookieSpec,
    value: Seq<char>,
    removed: CookieSpec,
)
    requires
        is_session_cookie(set, value),
        jar_received(signed_in) == jar_received(before),
        jar_sent(signed_in) == jar_sent(before).insert(set.name@, sent_record(false, set)),
        is_session_removal_cookie(removed),
        jar_received(signed_out) == jar_received(signed_in),
        jar_sent(signed_out) == (if jar_received(signed_in).contains_key(removed.name@) {
            jar_sent(signed_in).insert(removed.name@, removal_record(removed))
        } else {
            jar_sent(signed_in).remove(removed.name@)
        }),
    ensures
        jar_sent(signed_in)[session_cookie_name()] == (
            false,
            value,
            session_cookie_path(),
            "Lax"@,
            true,
            None::<i64>,
        ),
        jar_cookies(signed_in).contains_key(session_cookie_name()),
        jar_cookies(signed_in)[session_cookie_name()] == value,
        !jar_cookies(signed_out).contains_key(session_cookie_name()),
        jar_cookies(signed_out) == jar_cookies(before).remove(session_cookie_name()),
        jar_received(before).contains_key(session_cookie_name()) ==> jar_sent(signed_out)[session_cookie_name()]
            == (true, Seq::<char>::empty(), session_cookie_path(), "Lax"@, true, Some(0i64)),
{
    assert(jar_cookies(signed_in).contains_key(session_cookie_name()));
    assert(jar_cookies(signed_out) =~= jar_cookies(before).remove(session_cookie_name()));
}

/// The cookie a request is read for is the one signing in sets: a jar that holds
/// the session cookie set with `value` yields `value` as the session.
pub proof fn session_read_finds_cookie_set(set: CookieSpec, value: Seq<char>, jar: CookieJar)
    requires
        is_session_cookie(set, value),
        jar_cookies(jar).contains_key(set.name@),
        jar_cookies(jar)[set.name@] == set.value@,
    ensures
        jar_cookies(jar).contains_key(session_cookie_name()),
        jar_cookies(jar)[session_cookie_name()] == value,
{
}

} // verus!

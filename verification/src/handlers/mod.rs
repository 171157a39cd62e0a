//! The decisions of the web handlers, and the navigation bar they share.

pub mod auth;
pub mod events;
pub mod reservations;

use vstd::prelude::*;
use crate::models::SessionUser;
use crate::web::{Reply, login_path};

verus! {

/// The navigation bar up to the slot of the administration link.
pub const NAV_HEAD: &'static str = "<nav class=\"navbar\">\n  <a href=\"/\" class=\"nav-brand\">◆ KlubEvents</a>\n  <div class=\"nav-links\">\n    <a href=\"/\">Wydarzenia</a>\n    <a href=\"/reservations\">Moje rezerwacje</a>\n    ";

/// The link to the administration panel.
pub const ADMIN_LINK: &'static str = "<a href=\"/admin\">Panel admina</a>";

/// From the end of the links to the user's name.
pub const NAV_MIDDLE: &'static str = "\n  </div>\n  <div class=\"nav-user\">\n    <span>👤 ";

/// From the user's name to the end of the bar.
pub const NAV_TAIL: &'static str = "</span>\n    <form method=\"POST\" action=\"/auth/logout\">\n      <button type=\"submit\" class=\"btn btn-ghost btn-sm\">Wyloguj</button>\n    </form>\n  </div>\n</nav>";

/// The navigation bar shown to visitors who are not signed in.
pub const GUEST_NAV: &'static str = "<nav class=\"navbar\">\n  <a href=\"/\" class=\"nav-brand\">◆ KlubEvents</a>\n  <div class=\"nav-links\">\n    <a href=\"/\">Wydarzenia</a>\n  </div>\n  <div class=\"nav-user\">\n    <a href=\"/auth/login\" class=\"btn btn-ghost btn-sm\">Zaloguj się</a>\n    <a href=\"/auth/register\" class=\"btn btn-primary btn-sm\">Rejestracja</a>\n  </div>\n</nav>";

/// The administration link where the user may see it, nothing otherwise.
pub open spec fn admin_slot(user: SessionUser) -> Seq<char> {
    if user.has_admin_role() {
        ADMIN_LINK@
    } else {
        Seq::empty()
    }
}

/// The navigation bar of a signed-in user: the site's links, the administration
/// link for administrators, the user's name (as given, not escaped) and the
/// sign-out button.
pub open spec fn nav_html(user: SessionUser) -> Seq<char> {
    NAV_HEAD@ + admin_slot(user) + NAV_MIDDLE@ + user.username@ + NAV_TAIL@
}

/// The navigation bar for a signed-in user.
pub fn render_nav(user: &SessionUser) -> (html: String)
    ensures
        html@ == nav_html(*user),
        html@ == NAV_HEAD@ + (if user.role_name@ == "admin"@ {
            ADMIN_LINK@
        } else {
            Seq::empty()
        }) + NAV_MIDDLE@ + user.username@ + NAV_TAIL@,
{
    let admin_link: &str = if user.is_admin() {
        ADMIN_LINK
    } else {
        ""
    };
    proof {
        reveal_strlit("");
    }
    let mut html = String::from_str(NAV_HEAD);
    html.append(admin_link);
    html.append(NAV_MIDDLE);
    html.append(user.username.as_str());
    html.append(NAV_TAIL);
    assert(html@ =~= nav_html(*user));
    html
}

/// The navigation bar for a visitor who is not signed in.
pub fn render_guest_nav() -> (html: String)
    ensures
        html@ == GUEST_NAV@,
{
    String::from_str(GUEST_NAV)
}

/// The signed-in user, or, for an anonymous visitor, a redirect to the sign-in page.
pub fn require_user<P>(session: Option<SessionUser>) -> (r: Result<SessionUser, Reply<P>>)
    ensures
        match session {
            Some(u) => r == Ok::<SessionUser, Reply<P>>(u),
            None => r matches Err(Reply::Redirect(to)) && to@ == login_path(),
        },
{
    match session {
        Some(u) => Ok(u),
        None => Err(Reply::Redirect(String::from_str("/auth/login"))),
    }
}

/// The navigation bar shows the user's whole name, as given, right after the
/// greeting and right before the sign-out part, whatever its length.
pub proof fn nav_shows_full_username(user: SessionUser)
    ensures
        ({
            let start: int = NAV_HEAD@.len() + (if user.role_name@ == "admin"@ {
                ADMIN_LINK@.len() as int
            } else {
                0int
            }) + NAV_MIDDLE@.len();
            &&& nav_html(user).len() == start + user.username@.len() + NAV_TAIL@.len()
            &&& nav_html(user).subrange(start - NAV_MIDDLE@.len(), start) == NAV_MIDDLE@
            &&& nav_html(user).subrange(start, start + user.username@.len()) == user.username@
            &&& nav_html(user).subrange(
                start + user.username@.len(),
                nav_html(user).len() as int,
            ) == NAV_TAIL@
        }),
{
    let start: int = (NAV_HEAD@.len() + admin_slot(user).len() + NAV_MIDDLE@.len()) as int;
    let h = nav_html(user);
    assert(h.subrange(start - NAV_MIDDLE@.len(), start) =~= NAV_MIDDLE@);
    assert(h.subrange(start, start + user.username@.len()) =~= user.username@);
    assert(h.subrange(start + user.username@.len(), h.len() as int) =~= NAV_TAIL@);
}

/// The administration link stands in its slot of the navigation bar exactly when
/// the user is an administrator.
pub proof fn nav_shows_admin_link_iff_admin(user: SessionUser)
    ensures
        nav_html(user).subrange(NAV_HEAD@.len() as int, (NAV_HEAD@.len() + ADMIN_LINK@.len()) as int)
            == ADMIN_LINK@ <==> user.has_admin_role(),
{
    let start = NAV_HEAD@.len() as int;
    let end = (NAV_HEAD@.len() + ADMIN_LINK@.len()) as int;
    reveal_strlit("<a href=\"/admin\">Panel admina</a>");
    reveal_strlit("\n  </div>\n  <div class=\"nav-user\">\n    <span>👤 ");
    if user.has_admin_role() {
        assert(nav_html(user).subrange(start, end) =~= ADMIN_LINK@);
    } else {
        assert(nav_html(user)[start] == NAV_MIDDLE@[0]);
        assert(nav_html(user).subrange(start, end)[0] != ADMIN_LINK@[0]);
    }
}

} // verus!

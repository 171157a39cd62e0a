//! Reserving a seat at an event, cancelling it, and listing one's reservations.

use vstd::prelude::*;
use crate::db::DbError;
use crate::handlers::events::found_or_empty;
use crate::ids::{uuid_text, uuid_to_string};
use crate::models::{CreateReservationForm, ReservationWithDetails, SessionUser};
use crate::web::{Reply, login_path};

verus! {

/// The page listing the signed-in user's reservations.
pub struct ReservationsTemplate {
    pub current_user: Option<SessionUser>,
    pub reservations: Vec<ReservationWithDetails>,
}

/// What a reservation request asks to be done.
pub enum ReservationCommand {
    /// Answer with a redirect and change nothing.
    Redirect(String),
    /// Store a reservation of `event_id` for `user_id`, then redirect to `then`
    /// whether or not that succeeded.
    Insert { user_id: u128, event_id: u128, then: String },
    /// Delete the reservation `reservation_id` if it belongs to `user_id`, then
    /// redirect to `then` whether or not anything was deleted.
    Delete { reservation_id: u128, user_id: u128, then: String },
}

/// The page of the event `id`.
pub open spec fn event_path(id: u128) -> Seq<char> {
    "/events/"@ + uuid_text(id)
}

/// The list of the user's reservations.
pub open spec fn reservations_path() -> Seq<char> {
    "/reservations"@
}

/// Whose reservations the reservations page lists.
pub struct ReservationListing {
    /// The user the listing query is for.
    pub user_id: u128,
    /// The signed-in user the page is shown to.
    pub user: SessionUser,
}

/// The first step of the reservations page: an anonymous visitor is sent to sign in
/// before anything is queried; for a signed-in user, their own reservations are to be
/// listed.
pub fn my_reservations_query<P>(session: Option<SessionUser>) -> (r: Result<ReservationListing, Reply<P>>)
    ensures
        match session {
            Some(u) => match r {
                Ok(listing) => listing.user_id == u.id && listing.user == u,
                Err(_) => false,
            },
            None => r matches Err(Reply::Redirect(to)) && to@ == login_path(),
        },
{
    match session {
        Some(u) => Ok(ReservationListing { user_id: u.id, user: u }),
        None => Err(Reply::Redirect(String::from_str("/auth/login"))),
    }
}

/// The reservations page from what the listing query found; a failed query shows
/// none.
pub fn my_reservations(listing: ReservationListing, found: Result<Vec<ReservationWithDetails>, DbError>) -> (t:
    ReservationsTemplate)
    ensures
        t.current_user == Some(listing.user),
        t.reservations@ == found_or_empty(found),
        match found {
            Ok(v) => t.reservations@ == v@,
            Err(_) => t.reservations@.len() == 0,
        },
{
    let reservations = match found {
        Ok(v) => v,
        Err(_) => Vec::new(),
    };
    ReservationsTemplate { current_user: Some(listing.user), reservations: reservations }
}

/// Reserving a seat: an anonymous visitor is sent to sign in; a signed-in user's
/// reservation is stored and the event page shown.
pub fn create_reservation(session: &Option<SessionUser>, form: &CreateReservationForm) -> (r:
    ReservationCommand)
    ensures
        match session {
            Some(u) => match r {
                ReservationCommand::Insert { user_id, event_id, then } => user_id == u.id && event_id
                    == form.event_id && then@ == event_path(form.event_id),
                _ => false,
            },
            None => r matches ReservationCommand::Redirect(to) && to@ == login_path(),
        },
{
    match session {
        Some(u) => {
            let mut then = String::from_str("/events/");
            let id_text = uuid_to_string(form.event_id);
            then.append(id_text.as_str());
            ReservationCommand::Insert { user_id: u.id, event_id: form.event_id, then: then }
        },
        None => ReservationCommand::Redirect(String::from_str("/auth/login")),
    }
}

/// Cancelling a reservation: an anonymous visitor is sent to sign in; for a signed-in
/// user the reservation is deleted only if it is theirs, and their reservations shown.
pub fn cancel_reservation(session: &Option<SessionUser>, reservation_id: u128) -> (r:
    ReservationCommand)
    ensures
        match session {
            Some(u) => match r {
                ReservationCommand::Delete { reservation_id: id, user_id, then } => id
                    == reservation_id && user_id == u.id && then@ == reservations_path(),
                _ => false,
            },
            None => r matches ReservationCommand::Redirect(to) && to@ == login_path(),
        },
{
    match session {
        Some(u) => ReservationCommand::Delete {
            reservation_id: reservation_id,
            user_id: u.id,
            then: String::from_str("/reservations"),
        },
        None => ReservationCommand::Redirect(String::from_str("/auth/login")),
    }
}

} // verus!

//! The event listings and the event page.

use vstd::prelude::*;
use crate::db::DbError;
use crate::models::{EventWithLocation, SessionUser};
use crate::web::{Reply, home_path};

verus! {

/// The query string of the event listings: a place and a category to narrow them to.
#[derive(Debug)]
pub struct EventFilter {
    pub location: Option<String>,
    pub category: Option<String>,
}

/// The place and category the listing query narrows to; `None` means any.
pub struct EventSearch {
    pub location: Option<String>,
    pub category: Option<String>,
}

/// The full listings page.
pub struct EventsListTemplate {
    pub current_user: Option<SessionUser>,
    pub events: Vec<EventWithLocation>,
    pub locations: Vec<String>,
    pub categories: Vec<String>,
    pub selected_location: Option<String>,
    pub selected_category: Option<String>,
}

/// The list of event cards alone, for refreshing part of the listings page.
pub struct EventsCardsTemplate {
    pub events: Vec<EventWithLocation>,
}

/// The page of one event.
pub struct EventDetailTemplate {
    pub current_user: Option<SessionUser>,
    pub event: EventWithLocation,
    pub has_reservation: bool,
}

/// A filter value that narrows the listing: present and not empty.
pub open spec fn search_term(value: Option<String>) -> Option<String> {
    match value {
        Some(s) => if s@.len() > 0 {
            Some(s)
        } else {
            None
        },
        None => None,
    }
}

/// What a query found, or nothing when the query failed.
pub open spec fn found_or_empty<T>(found: Result<Vec<T>, DbError>) -> Seq<T> {
    match found {
        Ok(v) => v@,
        Err(_) => Seq::empty(),
    }
}

fn copy_text(value: &Option<String>) -> (r: Option<String>)
    ensures
        r == *value,
{
    match value {
        Some(s) => Some(s.clone()),
        None => None,
    }
}

fn search_term_of(value: &Option<String>) -> (r: Option<String>)
    ensures
        r == search_term(*value),
{
    match value {
        Some(s) => if s.as_str().is_empty() {
            None
        } else {
            Some(s.clone())
        },
        None => None,
    }
}

fn or_empty<T>(found: Result<Vec<T>, DbError>) -> (r: Vec<T>)
    ensures
        r@ == found_or_empty(found),
{
    match found {
        Ok(v) => v,
        Err(_) => Vec::new(),
    }
}

/// A filter value narrows the listing to exactly what was given, however long:
/// only an absent or empty value means any.
pub proof fn search_terms_are_kept(value: Option<String>)
    ensures
        match value {
            Some(s) => (s@.len() > 0 ==> search_term(value) == Some(s)) && (s@.len() == 0
                ==> search_term(value) is None),
            None => search_term(value) is None,
        },
{
}

/// What a query found is shown whole, in the order found, however many rows; a
/// failed query shows nothing.
pub proof fn found_rows_are_kept<T>(rows: Vec<T>, error: DbError)
    ensures
        found_or_empty(Ok::<Vec<T>, DbError>(rows)) == rows@,
        found_or_empty(Err::<Vec<T>, DbError>(error)).len() == 0,
{
}

/// The search the listings run for `filter`: an empty place or category means any.
pub fn event_search(filter: &EventFilter) -> (r: EventSearch)
    ensures
        r.location == search_term(filter.location),
        r.category == search_term(filter.category),
        match filter.location {
            Some(s) => if s@.len() > 0 {
                r.location == Some(s)
            } else {
                r.location is None
            },
            None => r.location is None,
        },
        match filter.category {
            Some(s) => if s@.len() > 0 {
                r.category == Some(s)
            } else {
                r.category is None
            },
            None => r.category is None,
        },
{
    EventSearch { location: search_term_of(&filter.location), category: search_term_of(&filter.category) }
}

/// The listings page from what the three queries found; a failed query shows as an
/// empty list. The selected place and category are shown as submitted.
pub fn list_events(
    session: Option<SessionUser>,
    filter: &EventFilter,
    events: Result<Vec<EventWithLocation>, DbError>,
    locations: Result<Vec<String>, DbError>,
    categories: Result<Vec<String>, DbError>,
) -> (t: EventsListTemplate)
    ensures
        t.current_user == session,
        t.events@ == found_or_empty(events),
        t.locations@ == found_or_empty(locations),
        t.categories@ == found_or_empty(categories),
        match events {
            Ok(v) => t.events@ == v@,
            Err(_) => t.events@.len() == 0,
        },
        match locations {
            Ok(v) => t.locations@ == v@,
            Err(_) => t.locations@.len() == 0,
        },
        match categories {
            Ok(v) => t.categories@ == v@,
            Err(_) => t.categories@.len() == 0,
        },
        t.selected_location == filter.location,
        t.selected_category == filter.category,
{
    EventsListTemplate {
        current_user: session,
        events: or_empty(events),
        locations: or_empty(locations),
        categories: or_empty(categories),
        selected_location: copy_text(&filter.location),
        selected_category: copy_text(&filter.category),
    }
}

/// The event cards from what the listing query found; a failed query shows none.
pub fn events_partial(events: Result<Vec<EventWithLocation>, DbError>) -> (t: EventsCardsTemplate)
    ensures
        t.events@ == found_or_empty(events),
        match events {
            Ok(v) => t.events@ == v@,
            Err(_) => t.events@.len() == 0,
        },
{
    EventsCardsTemplate { events: or_empty(events) }
}

/// The first step of the event page: what to do once the event was looked up.
pub enum EventDetailStep {
    /// Answer now.
    Respond(Reply<EventDetailTemplate>),
    /// Look up whether the signed-in user holds a reservation for the event, then
    /// show it.
    CheckReservation { user_id: u128, event_id: u128, event: EventWithLocation },
}

/// Decides the event page once the event `event_id` was looked up: an event that was
/// not found (or a failed query) sends the visitor home; an anonymous visitor sees
/// the event without a reservation; for a signed-in user the reservation is looked up.
pub fn event_detail(
    session: &Option<SessionUser>,
    event_id: u128,
    event: Result<Option<EventWithLocation>, DbError>,
) -> (r: EventDetailStep)
    ensures
        match event {
            Ok(Some(e)) => match session {
                Some(u) => r == EventDetailStep::CheckReservation {
                    user_id: u.id,
                    event_id: event_id,
                    event: e,
                },
                None => match r {
                    EventDetailStep::Respond(Reply::Page(t)) => t.current_user is None && t.event
                        == e && !t.has_reservation,
                    _ => false,
                },
            },
            _ => match r {
                EventDetailStep::Respond(Reply::Redirect(to)) => to@ == home_path(),
                _ => false,
            },
        },
{
    match event {
        Ok(Some(e)) => match session {
            Some(u) => EventDetailStep::CheckReservation { user_id: u.id, event_id: event_id, event: e },
            None => EventDetailStep::Respond(
                Reply::Page(EventDetailTemplate { current_user: None, event: e, has_reservation: false }),
            ),
        },
        _ => EventDetailStep::Respond(Reply::Redirect(String::from_str("/"))),
    }
}

/// The event page once the reservation was looked up: the user holds a reservation
/// exactly when the lookup found one; an anonymous visitor never does, and a failed
/// lookup counts as none.
pub fn event_detail_page(
    session: Option<SessionUser>,
    event: EventWithLocation,
    reservation: Result<Option<u128>, DbError>,
) -> (t: EventDetailTemplate)
    ensures
        t.current_user == session,
        t.event == event,
        t.has_reservation == (session is Some && reservation matches Ok(Some(_))),
{
    let has_reservation = match session {
        Some(_) => match reservation {
            Ok(Some(_)) => true,
            _ => false,
        },
        None => false,
    };
    EventDetailTemplate { current_user: session, event: event, has_reservation: has_reservation }
}

} // verus!

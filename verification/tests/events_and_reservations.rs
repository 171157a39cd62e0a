use axum::response::IntoResponse;
use axum_extra::extract::cookie::{Cookie, CookieJar};
use klub_events::api::{get_event, list_events as api_list_events};
use klub_events::db::DbError;
use klub_events::handlers::events::{
    event_detail, event_detail_page, event_search, events_partial, list_events, EventDetailStep,
    EventFilter,
};
use klub_events::handlers::reservations::{
    cancel_reservation, create_reservation, my_reservations, my_reservations_query,
    ReservationCommand, ReservationListing, ReservationsTemplate,
};
use klub_events::models::{CreateReservationForm, EventWithLocation, ReservationWithDetails, SessionUser};
use klub_events::handlers::auth::logout;
use klub_events::session::{session_cookie, settle, Answer};
use klub_events::web::{sign_in, Reply};

fn event(id: u128) -> EventWithLocation {
    EventWithLocation {
        id,
        title: "Koncert".to_string(),
        description: "Jazz".to_string(),
        date: 1_700_000_000_000_000,
        location_id: 5,
        location_name: "Klub".to_string(),
        location_address: "ul. Długa 1".to_string(),
        created_at: 1_600_000_000_000_000,
    }
}

fn user() -> SessionUser {
    SessionUser {
        id: 3,
        username: "ola".to_string(),
        email: "ola@example.com".to_string(),
        role_name: "user".to_string(),
    }
}

fn db_error() -> DbError {
    DbError { message: "pool timed out".to_string() }
}

#[test]
fn empty_filters_mean_any() {
    let f = EventFilter { location: Some(String::new()), category: Some("Muzyka".to_string()) };
    let s = event_search(&f);
    assert_eq!(s.location, None);
    assert_eq!(s.category.as_deref(), Some("Muzyka"));
    let f = EventFilter { location: None, category: None };
    let s = event_search(&f);
    assert_eq!(s.location, None);
    assert_eq!(s.category, None);
}

#[test]
fn listing_keeps_the_filter_as_submitted() {
    let f = EventFilter { location: Some(String::new()), category: Some("Muzyka".to_string()) };
    let t = list_events(
        Some(user()),
        &f,
        Ok(vec![event(1), event(2)]),
        Ok(vec!["Klub".to_string()]),
        Err(db_error()),
    );
    assert_eq!(t.current_user.map(|u| u.id), Some(3));
    assert_eq!(t.events.len(), 2);
    assert_eq!(t.events[1].id, 2);
    assert_eq!(t.locations, vec!["Klub".to_string()]);
    assert!(t.categories.is_empty());
    assert_eq!(t.selected_location.as_deref(), Some(""));
    assert_eq!(t.selected_category.as_deref(), Some("Muzyka"));
}

#[test]
fn cards_show_nothing_after_a_failed_query() {
    assert!(events_partial(Err(db_error())).events.is_empty());
    assert_eq!(events_partial(Ok(vec![event(9)])).events[0].id, 9);
}

#[test]
fn missing_event_sends_home() {
    for found in [Ok(None), Err(db_error())] {
        match event_detail(&Some(user()), 11, found) {
            EventDetailStep::Respond(Reply::Redirect(to)) => assert_eq!(to, "/"),
            _ => panic!("expected a redirect"),
        }
    }
}

#[test]
fn anonymous_visitor_sees_event_without_reservation() {
    match event_detail(&None, 11, Ok(Some(event(11)))) {
        EventDetailStep::Respond(Reply::Page(t)) => {
            assert!(t.current_user.is_none());
            assert_eq!(t.event.id, 11);
            assert!(!t.has_reservation);
        }
        _ => panic!("expected the page"),
    }
}

#[test]
fn signed_in_user_gets_reservation_looked_up() {
    match event_detail(&Some(user()), 11, Ok(Some(event(11)))) {
        EventDetailStep::CheckReservation { user_id, event_id, event } => {
            assert_eq!(user_id, 3);
            assert_eq!(event_id, 11);
            assert_eq!(event.title, "Koncert");
        }
        _ => panic!("expected a lookup"),
    }
}

#[test]
fn reservation_flag_follows_the_lookup() {
    assert!(event_detail_page(Some(user()), event(1), Ok(Some(8))).has_reservation);
    assert!(!event_detail_page(Some(user()), event(1), Ok(None)).has_reservation);
    assert!(!event_detail_page(Some(user()), event(1), Err(db_error())).has_reservation);
    assert!(!event_detail_page(None, event(1), Ok(Some(8))).has_reservation);
}

#[test]
fn my_reservations_lists_what_was_found() {
    let r = ReservationWithDetails {
        id: 1,
        user_id: 3,
        username: "ola".to_string(),
        event_id: 11,
        event_title: "Koncert".to_string(),
        event_date: 0,
        location_name: "Klub".to_string(),
        created_at: 0,
    };
    let listing = ReservationListing { user_id: 3, user: user() };
    let t = my_reservations(listing, Ok(vec![r]));
    assert_eq!(t.current_user.map(|u| u.id), Some(3));
    assert_eq!(t.reservations[0].event_title, "Koncert");
    let listing = ReservationListing { user_id: 3, user: user() };
    assert!(my_reservations(listing, Err(db_error())).reservations.is_empty());
}

#[test]
fn reservations_page_is_for_the_signed_in_user() {
    let r: Result<ReservationListing, Reply<ReservationsTemplate>> = my_reservations_query(Some(user()));
    match r {
        Ok(listing) => {
            assert_eq!(listing.user_id, 3);
            assert_eq!(listing.user.username, "ola");
        }
        Err(_) => panic!("signed-in user refused"),
    }
    let r: Result<ReservationListing, Reply<ReservationsTemplate>> = my_reservations_query(None);
    match r {
        Err(Reply::Redirect(to)) => assert_eq!(to, "/auth/login"),
        _ => panic!("anonymous visitor not redirected"),
    }
}

#[test]
fn reserving_redirects_to_the_event_page() {
    let id = 0x67e5_5044_10b1_426f_9247_bb68_0e5f_e0c8u128;
    match create_reservation(&Some(user()), &CreateReservationForm { event_id: id }) {
        ReservationCommand::Insert { user_id, event_id, then } => {
            assert_eq!(user_id, 3);
            assert_eq!(event_id, id);
            assert_eq!(then, "/events/67e55044-10b1-426f-9247-bb680e5fe0c8");
        }
        _ => panic!("expected an insert"),
    }
    match create_reservation(&Some(user()), &CreateReservationForm { event_id: 0xab }) {
        ReservationCommand::Insert { then, .. } => {
            assert_eq!(then, "/events/00000000-0000-0000-0000-0000000000ab")
        }
        _ => panic!("expected an insert"),
    }
}

#[test]
fn anonymous_reservation_requests_go_to_login() {
    match create_reservation(&None, &CreateReservationForm { event_id: 1 }) {
        ReservationCommand::Redirect(to) => assert_eq!(to, "/auth/login"),
        _ => panic!("expected a redirect"),
    }
    match cancel_reservation(&None, 1) {
        ReservationCommand::Redirect(to) => assert_eq!(to, "/auth/login"),
        _ => panic!("expected a redirect"),
    }
}

#[test]
fn cancelling_is_limited_to_own_reservations() {
    match cancel_reservation(&Some(user()), 99) {
        ReservationCommand::Delete { reservation_id, user_id, then } => {
            assert_eq!(reservation_id, 99);
            assert_eq!(user_id, 3);
            assert_eq!(then, "/reservations");
        }
        _ => panic!("expected a delete"),
    }
}

#[test]
fn api_get_event_answers() {
    assert_eq!(get_event(Ok(Some(event(4)))).unwrap().id, 4);
    assert_eq!(get_event(Ok(None)).unwrap_err(), "Nie znaleziono wydarzenia");
    assert_eq!(get_event(Err(db_error())).unwrap_err(), "pool timed out");
}

#[test]
fn api_list_events_answers() {
    assert_eq!(api_list_events(Ok(vec![event(1)])).unwrap().len(), 1);
    assert_eq!(api_list_events(Err(db_error())).unwrap_err(), "pool timed out");
}

#[test]
fn session_cookie_is_read_by_name() {
    let jar = CookieJar::new()
        .add(Cookie::new("theme", "dark"))
        .add(Cookie::new("session", "{\"id\":1}"));
    assert_eq!(session_cookie(&jar).as_deref(), Some("{\"id\":1}"));
    let jar = CookieJar::new().add(Cookie::new("Session", "x"));
    assert_eq!(session_cookie(&jar), None);
}

#[test]
fn sign_out_undoes_sign_in() {
    let before = CookieJar::new().add(Cookie::new("theme", "dark"));
    let (signed_in, answer) = settle(before, sign_in::<()>("{\"id\":1}".to_string()));
    match answer {
        Answer::Redirect(to) => assert_eq!(to, "/"),
        Answer::Page(_) => panic!("expected a redirect"),
    }
    assert_eq!(session_cookie(&signed_in).as_deref(), Some("{\"id\":1}"));
    let (signed_out, answer) = settle(signed_in, logout::<()>());
    match answer {
        Answer::Redirect(to) => assert_eq!(to, "/auth/login"),
        Answer::Page(_) => panic!("expected a redirect"),
    }
    assert_eq!(session_cookie(&signed_out), None);
    assert_eq!(signed_out.get("theme").map(|c| c.value().to_string()).as_deref(), Some("dark"));
}

#[test]
fn sign_out_of_a_request_session_removes_it() {
    let mut headers = axum::http::HeaderMap::new();
    headers.insert(axum::http::header::COOKIE, "session=abc; theme=dark".parse().unwrap());
    let jar = CookieJar::from_headers(&headers);
    assert_eq!(session_cookie(&jar).as_deref(), Some("abc"));
    let (jar, _) = settle(jar, logout::<()>());
    assert_eq!(session_cookie(&jar), None);
    assert_eq!(jar.get("theme").map(|c| c.value().to_string()).as_deref(), Some("dark"));
}

#[test]
fn pages_and_redirects_keep_the_cookies() {
    let jar = CookieJar::new().add(Cookie::new("session", "s"));
    let (jar, answer) = settle(jar, Reply::Page(5u8));
    assert!(matches!(answer, Answer::Page(5)));
    let (jar, answer) = settle(jar, Reply::<u8>::Redirect("/x".to_string()));
    assert!(matches!(answer, Answer::Redirect(ref to) if to == "/x"));
    assert_eq!(session_cookie(&jar).as_deref(), Some("s"));
}

fn set_cookie_headers(jar: CookieJar) -> Vec<String> {
    let response = (jar, ()).into_response();
    response
        .headers()
        .get_all(axum::http::header::SET_COOKIE)
        .iter()
        .map(|v| v.to_str().unwrap().to_string())
        .collect()
}

#[test]
fn sign_in_sends_the_session_cookie_as_built() {
    let (jar, _) = settle(CookieJar::new(), sign_in::<()>("abc".to_string()));
    let headers = set_cookie_headers(jar);
    assert_eq!(headers.len(), 1);
    let h = &headers[0];
    assert!(h.starts_with("session=abc"));
    assert!(h.contains("HttpOnly"));
    assert!(h.contains("SameSite=Lax"));
    assert!(h.contains("Path=/"));
    assert!(!h.contains("Max-Age"));
}

#[test]
fn sign_out_sends_the_removal_at_the_session_path() {
    let mut headers = axum::http::HeaderMap::new();
    headers.insert(axum::http::header::COOKIE, "session=abc".parse().unwrap());
    let jar = CookieJar::from_headers(&headers);
    let (jar, _) = settle(jar, logout::<()>());
    let sent = set_cookie_headers(jar);
    assert_eq!(sent.len(), 1);
    let h = &sent[0];
    assert!(h.starts_with("session=;"));
    assert!(h.contains("HttpOnly"));
    assert!(h.contains("SameSite=Lax"));
    assert!(h.contains("Path=/"));
    assert!(h.contains("Max-Age=0"));
}

#[test]
fn sign_out_without_a_session_sends_nothing() {
    let (jar, _) = settle(CookieJar::new(), logout::<()>());
    assert!(set_cookie_headers(jar).is_empty());
}

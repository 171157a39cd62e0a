use vstd::prelude::*;

verus! {

/// A reservation as stored in the `reservations` table.
#[derive(Debug)]
pub struct Reservation {
    pub id: u128,
    pub user_id: u128,
    pub event_id: u128,
    pub created_at: i64,
}

/// A reservation together with what the "my reservations" page shows of its
/// user, event and place.
#[derive(Debug)]
pub struct ReservationWithDetails {
    pub id: u128,
    pub user_id: u128,
    pub username: String,
    pub event_id: u128,
    pub event_title: String,
    pub event_date: i64,
    pub location_name: String,
    pub created_at: i64,
}

/// The form that asks for a seat at an event.
#[derive(Debug)]
pub struct CreateReservationForm {
    pub event_id: u128,
}

} // verus!

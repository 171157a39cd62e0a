use vstd::prelude::*;

verus! {

/// An event as stored in the `events` table.
#[derive(Debug)]
pub struct Event {
    pub id: u128,
    pub title: String,
    pub description: String,
    /// When the event takes place, in microseconds since the Unix epoch.
    pub date: i64,
    pub location_id: u128,
    pub created_at: i64,
}

/// An event together with the name and address of the place where it happens.
#[derive(Debug)]
pub struct EventWithLocation {
    pub id: u128,
    pub title: String,
    pub description: String,
    pub date: i64,
    pub location_id: u128,
    pub location_name: String,
    pub location_address: String,
    pub created_at: i64,
}

} // verus!

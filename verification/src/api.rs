//! The JSON API: the events, all of them or one by its identifier.

use vstd::prelude::*;
use crate::db::DbError;
use crate::models::EventWithLocation;

verus! {

/// The error answered for an event that does not exist.
pub const EVENT_NOT_FOUND: &'static str = "Nie znaleziono wydarzenia";

/// All events, or the text of the database error.
pub fn list_events(found: Result<Vec<EventWithLocation>, DbError>) -> (r: Result<Vec<EventWithLocation>, String>)
    ensures
        match found {
            Ok(v) => r == Ok::<Vec<EventWithLocation>, String>(v),
            Err(e) => r == Err::<Vec<EventWithLocation>, String>(e.message),
        },
{
    match found {
        Ok(v) => Ok(v),
        Err(e) => Err(e.message),
    }
}

/// One event, the text of the database error, or, when no event has the
/// identifier, `EVENT_NOT_FOUND`.
pub fn get_event(found: Result<Option<EventWithLocation>, DbError>) -> (r: Result<EventWithLocation, String>)
    ensures
        match found {
            Ok(Some(e)) => r == Ok::<EventWithLocation, String>(e),
            Ok(None) => r matches Err(m) && m@ == EVENT_NOT_FOUND@,
            Err(e) => r == Err::<EventWithLocation, String>(e.message),
        },
{
    match found {
        Ok(Some(e)) => Ok(e),
        Ok(None) => Err(String::from_str(EVENT_NOT_FOUND)),
        Err(e) => Err(e.message),
    }
}

} // verus!

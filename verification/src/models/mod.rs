//! The records the application reads from and writes to its database, and the
//! forms it receives from the browser.
//!
//! Identifiers are UUIDs held as their 128-bit value; instants are held as
//! microseconds since the Unix epoch (UTC).

pub mod event;
pub mod reservation;
pub mod user;

pub use event::{Event, EventWithLocation};
pub use reservation::{CreateReservationForm, Reservation, ReservationWithDetails};
pub use user::{LoginForm, RegisterForm, SessionUser, User};

//! Verified core of the KlubEvents web application: the data it keeps about
//! users, events and reservations, and every decision its request handlers
//! make between talking to the database, the password hasher and the browser.

pub mod api;
pub mod db;
pub mod handlers;
pub mod ids;
pub mod models;
pub mod password;
pub mod session;
pub mod text;
pub mod web;

//! Core of a small astronomy lookup tool: build the query for a remote
//! astronomy service from the user's inputs, and interpret the service's
//! loosely typed reply as either a human-readable failure message or a
//! fully populated record of display fields.
//!
//! The presentation layer (window, widgets, the network call itself) lives
//! outside this crate; it hands in plain strings and a date, and takes back
//! a single tagged outcome.

pub mod date;
pub mod interpret;
pub mod json;
pub mod outcome;
pub mod query;

//! The decisions of the HTTP routes.

pub mod admin;
pub mod agents;
pub mod delivery;
pub mod listing;
pub mod messages;
pub mod reading;
pub mod send;
pub mod threads;

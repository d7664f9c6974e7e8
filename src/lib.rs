//! Turns a status-page incident webhook into a social-media post record.
//!
//! The library decodes the incident carried by an event, picks its most
//! recent update, shortens the update's text to the platform's budget and
//! assembles the post. Sending the post is left to the caller.
pub mod text;
pub mod incident;
pub mod post;
pub mod handler;
pub mod laws;

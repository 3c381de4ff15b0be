//! Typed parsing of event-subscription notifications.
//!
//! A notification arrives as a structured [`document::Value`]. Its subscription
//! section names an event type and a version; [`eventsub::Event::parse`] selects
//! the payload shape registered for that pair and returns the typed envelope.

pub mod document;
pub mod error;
pub mod fields;
pub mod eventsub;

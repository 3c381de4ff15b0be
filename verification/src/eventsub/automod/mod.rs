//! Subscription types regarding the automod.

pub mod message;

pub use message::hold::{AutomodMessageHoldV1, AutomodMessageHoldV1Payload};

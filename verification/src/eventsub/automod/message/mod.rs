//! Subscription types regarding automod messages.

pub mod hold;

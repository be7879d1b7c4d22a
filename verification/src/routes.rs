//! What the service does with the requests it is sent.

pub mod subscriptions;
